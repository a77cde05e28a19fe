use vstd::prelude::*;
use crate::config::BackupJob;
use crate::config::Config;
use crate::config::Options;
use crate::numfmt::format_u32;
use crate::numfmt::spec_digits;

verus! {

/// The character sequences of a sequence of strings.
pub open spec fn views_of(v: Seq<String>) -> Seq<Seq<char>> {
    v.map_values(|s: String| s@)
}

/// The `--exclude <pattern>` flag pairs for a list of patterns, one
/// contiguous pair per pattern, in order.
pub open spec fn spec_exclude_args(patterns: Seq<Seq<char>>) -> Seq<Seq<char>>
    decreases patterns.len(),
{
    if patterns.len() == 0 {
        Seq::empty()
    } else {
        spec_exclude_args(patterns.drop_last()) + seq!["--exclude"@, patterns.last()]
    }
}

/// The boolean option flags of a `create` invocation, in their fixed order.
pub open spec fn spec_option_flags(o: Options) -> Seq<Seq<char>> {
    (if o.show_stats {
        seq!["--stats"@]
    } else {
        Seq::empty()
    }) + (if o.show_progress {
        seq!["--progress"@]
    } else {
        Seq::empty()
    }) + (if o.one_file_system {
        seq!["--one-file-system"@]
    } else {
        Seq::empty()
    }) + (if o.exclude_caches {
        seq!["--exclude-caches"@]
    } else {
        Seq::empty()
    })
}

/// What one job contributes to a `create` invocation: its source path
/// immediately followed by its own exclusion pairs when enabled, nothing
/// when disabled.
pub open spec fn spec_job_args(j: BackupJob) -> Seq<Seq<char>> {
    if j.enabled {
        seq![j.source@] + spec_exclude_args(views_of(j.exclude@))
    } else {
        Seq::empty()
    }
}

/// The concatenated contributions of all jobs, in job-list order.
pub open spec fn spec_jobs_args(jobs: Seq<BackupJob>) -> Seq<Seq<char>>
    decreases jobs.len(),
{
    if jobs.len() == 0 {
        Seq::empty()
    } else {
        spec_jobs_args(jobs.drop_last()) + spec_job_args(jobs.last())
    }
}

/// The full argument list of a `create` invocation: option flags, the
/// compression codec, the global exclusions, the `repo::archive` target,
/// then each enabled job's source with its own exclusions adjacent.
pub open spec fn spec_create_args(c: Config, archive: Seq<char>) -> Seq<Seq<char>> {
    seq!["create"@] + spec_option_flags(c.options) + seq!["--compression="@ + c.compression@]
        + spec_exclude_args(views_of(c.exclusions@)) + seq![c.repository.path@ + "::"@ + archive]
        + spec_jobs_args(c.jobs@)
}

/// Appends `--exclude <pattern>` pairs for every pattern in `patterns`.
fn push_exclude_args(args: &mut Vec<String>, patterns: &Vec<String>)
    ensures
        views_of(final(args)@) == views_of(old(args)@) + spec_exclude_args(views_of(patterns@)),
{
    let ghost base = views_of(old(args)@);
    let mut i: usize = 0;
    while i < patterns.len()
        invariant
            i <= patterns.len(),
            views_of(args@) =~= base + spec_exclude_args(views_of(patterns@.take(i as int))),
        decreases patterns.len() - i,
    {
        let ghost pre = args@;
        args.push(String::from_str("--exclude"));
        args.push(patterns[i].clone());
        proof {
            let vs = views_of(patterns@.take(i + 1 as int));
            assert(vs.drop_last() =~= views_of(patterns@.take(i as int)));
            assert(vs.last() == patterns@[i as int]@);
            assert(views_of(args@) =~= views_of(pre) + seq!["--exclude"@, patterns@[i as int]@]);
            assert(spec_exclude_args(vs) == spec_exclude_args(vs.drop_last()) + seq![
                "--exclude"@,
                vs.last(),
            ]);
            assert(views_of(args@) =~= base + spec_exclude_args(vs));
        }
        i = i + 1;
    }
    proof {
        assert(patterns@.take(patterns@.len() as int) =~= patterns@);
    }
}

/// Builds the `create` argument list for one backup cycle. Disabled jobs
/// contribute nothing; each enabled job's exclusions stay contiguous with
/// its source.
pub fn create_args(c: &Config, archive: &str) -> (r: Vec<String>)
    ensures
        views_of(r@) == spec_create_args(*c, archive@),
{
    let mut args: Vec<String> = Vec::new();
    args.push(String::from_str("create"));
    if c.options.show_stats {
        args.push(String::from_str("--stats"));
    }
    if c.options.show_progress {
        args.push(String::from_str("--progress"));
    }
    if c.options.one_file_system {
        args.push(String::from_str("--one-file-system"));
    }
    if c.options.exclude_caches {
        args.push(String::from_str("--exclude-caches"));
    }
    let mut compression = String::from_str("--compression=");
    compression.append(c.compression.as_str());
    args.push(compression);
    proof {
        assert(views_of(args@) =~= seq!["create"@] + spec_option_flags(c.options) + seq![
            "--compression="@ + c.compression@,
        ]);
    }
    push_exclude_args(&mut args, &c.exclusions);
    let mut target = c.repository.path.clone();
    target.append("::");
    target.append(archive);
    args.push(target);
    let ghost prefix = views_of(args@);
    let mut i: usize = 0;
    while i < c.jobs.len()
        invariant
            i <= c.jobs.len(),
            views_of(args@) =~= prefix + spec_jobs_args(c.jobs@.take(i as int)),
        decreases c.jobs.len() - i,
    {
        let ghost pre = args@;
        let job = &c.jobs[i];
        if job.enabled {
            args.push(job.source.clone());
            push_exclude_args(&mut args, &job.exclude);
        }
        proof {
            let js = c.jobs@.take(i + 1 as int);
            assert(js.drop_last() =~= c.jobs@.take(i as int));
            assert(js.last() == c.jobs@[i as int]);
            assert(spec_jobs_args(js) == spec_jobs_args(js.drop_last()) + spec_job_args(js.last()));
            if c.jobs@[i as int].enabled {
                assert(views_of(args@) =~= views_of(pre) + (seq![c.jobs@[i as int].source@]
                    + spec_exclude_args(views_of(c.jobs@[i as int].exclude@))));
            } else {
                assert(views_of(args@) =~= views_of(pre));
            }
            assert(views_of(args@) =~= prefix + spec_jobs_args(js));
        }
        i = i + 1;
    }
    proof {
        assert(c.jobs@.take(c.jobs@.len() as int) =~= c.jobs@);
        assert(views_of(args@) =~= spec_create_args(*c, archive@));
    }
    args
}

/// Disabled jobs contribute no source path and no exclusion flags: the job
/// contributions of a job list are those of its enabled jobs alone.
pub proof fn lemma_jobs_args_ignore_disabled(jobs: Seq<BackupJob>)
    ensures
        spec_jobs_args(jobs) == spec_jobs_args(jobs.filter(|j: BackupJob| j.enabled)),
    decreases jobs.len(),
{
    reveal(Seq::filter);
    let pred = |j: BackupJob| j.enabled;
    if jobs.len() == 0 {
    } else {
        lemma_jobs_args_ignore_disabled(jobs.drop_last());
        let sub = jobs.drop_last().filter(pred);
        if jobs.last().enabled {
            let f = jobs.filter(pred);
            assert(f == sub.push(jobs.last()));
            assert(f.len() > 0);
            assert(f.drop_last() =~= sub);
            assert(f.last() == jobs.last());
        } else {
            assert(spec_job_args(jobs.last()) =~= Seq::<Seq<char>>::empty());
            assert(spec_jobs_args(jobs) =~= spec_jobs_args(jobs.drop_last()));
        }
    }
}

/// A disabled job may stand anywhere in the job list without changing the
/// job contributions: removing it leaves them untouched.
pub proof fn lemma_disabled_job_removable(jobs: Seq<BackupJob>, i: int)
    requires
        0 <= i < jobs.len(),
        !jobs[i].enabled,
    ensures
        spec_jobs_args(jobs) == spec_jobs_args(jobs.remove(i)),
    decreases jobs.len(),
{
    if i == jobs.len() - 1 {
        assert(jobs.remove(i) =~= jobs.drop_last());
        assert(spec_job_args(jobs.last()) =~= Seq::<Seq<char>>::empty());
        assert(spec_jobs_args(jobs) =~= spec_jobs_args(jobs.drop_last()));
    } else {
        lemma_disabled_job_removable(jobs.drop_last(), i);
        assert(jobs.remove(i).drop_last() =~= jobs.drop_last().remove(i));
        assert(jobs.remove(i).last() == jobs.last());
        assert(jobs.remove(i).len() > 0);
    }
}

/// The full argument list of a `prune` invocation: list mode, the archive
/// prefix scoped to this host, the six retention knobs verbatim, then the
/// repository path.
pub open spec fn spec_prune_args(c: Config, hostname: Seq<char>) -> Seq<Seq<char>> {
    seq![
        "prune"@,
        "--list"@,
        "--prefix="@ + hostname + "-"@,
        "--keep-within="@ + c.retention.within@,
        "--keep-hourly="@ + spec_digits(c.retention.hourly as nat),
        "--keep-daily="@ + spec_digits(c.retention.daily as nat),
        "--keep-weekly="@ + spec_digits(c.retention.weekly as nat),
        "--keep-monthly="@ + spec_digits(c.retention.monthly as nat),
        "--keep-yearly="@ + spec_digits(c.retention.yearly as nat),
        c.repository.path@,
    ]
}

fn keep_flag(name: &str, n: u32) -> (r: String)
    ensures
        r@ == name@ + spec_digits(n as nat),
{
    let mut s = String::from_str(name);
    s.append(format_u32(n).as_str());
    s
}

/// Builds the `prune` argument list: the prefix filter confines pruning to
/// this host's archives, and the retention policy is passed through.
pub fn prune_args(c: &Config, hostname: &str) -> (r: Vec<String>)
    ensures
        views_of(r@) == spec_prune_args(*c, hostname@),
{
    let mut args: Vec<String> = Vec::new();
    args.push(String::from_str("prune"));
    args.push(String::from_str("--list"));
    let mut prefix = String::from_str("--prefix=");
    prefix.append(hostname);
    prefix.append("-");
    args.push(prefix);
    let mut within = String::from_str("--keep-within=");
    within.append(c.retention.within.as_str());
    args.push(within);
    args.push(keep_flag("--keep-hourly=", c.retention.hourly));
    args.push(keep_flag("--keep-daily=", c.retention.daily));
    args.push(keep_flag("--keep-weekly=", c.retention.weekly));
    args.push(keep_flag("--keep-monthly=", c.retention.monthly));
    args.push(keep_flag("--keep-yearly=", c.retention.yearly));
    args.push(c.repository.path.clone());
    proof {
        assert(views_of(args@) =~= spec_prune_args(*c, hostname@));
    }
    args
}

/// Builds the `compact` argument list.
pub fn compact_args(c: &Config) -> (r: Vec<String>)
    ensures
        views_of(r@) == seq!["compact"@, c.repository.path@],
{
    let mut args: Vec<String> = Vec::new();
    args.push(String::from_str("compact"));
    args.push(c.repository.path.clone());
    proof {
        assert(views_of(args@) =~= seq!["compact"@, c.repository.path@]);
    }
    args
}

/// Builds the `check` argument list.
pub fn check_args(c: &Config) -> (r: Vec<String>)
    ensures
        views_of(r@) == seq!["check"@, c.repository.path@],
{
    let mut args: Vec<String> = Vec::new();
    args.push(String::from_str("check"));
    args.push(c.repository.path.clone());
    proof {
        assert(views_of(args@) =~= seq!["check"@, c.repository.path@]);
    }
    args
}

/// Builds the `info` argument list.
pub fn info_args(c: &Config) -> (r: Vec<String>)
    ensures
        views_of(r@) == seq!["info"@, c.repository.path@],
{
    let mut args: Vec<String> = Vec::new();
    args.push(String::from_str("info"));
    args.push(c.repository.path.clone());
    proof {
        assert(views_of(args@) =~= seq!["info"@, c.repository.path@]);
    }
    args
}

/// Builds the `list` argument list.
pub fn list_args(c: &Config) -> (r: Vec<String>)
    ensures
        views_of(r@) == seq!["list"@, c.repository.path@],
{
    let mut args: Vec<String> = Vec::new();
    args.push(String::from_str("list"));
    args.push(c.repository.path.clone());
    proof {
        assert(views_of(args@) =~= seq!["list"@, c.repository.path@]);
    }
    args
}

/// Builds the `init` argument list with the configured encryption scheme.
pub fn init_args(c: &Config) -> (r: Vec<String>)
    ensures
        views_of(r@) == seq!["init"@, "--encryption="@ + c.repository.encryption@, c.repository.path@],
{
    let mut args: Vec<String> = Vec::new();
    args.push(String::from_str("init"));
    let mut enc = String::from_str("--encryption=");
    enc.append(c.repository.encryption.as_str());
    args.push(enc);
    args.push(c.repository.path.clone());
    proof {
        assert(views_of(args@) =~= seq![
            "init"@,
            "--encryption="@ + c.repository.encryption@,
            c.repository.path@,
        ]);
    }
    args
}

/// Builds the `mount` argument list for browsing the repository.
pub fn mount_args(c: &Config, mount_point: &str) -> (r: Vec<String>)
    ensures
        views_of(r@) == seq!["mount"@, c.repository.path@, mount_point@],
{
    let mut args: Vec<String> = Vec::new();
    args.push(String::from_str("mount"));
    args.push(c.repository.path.clone());
    args.push(String::from_str(mount_point));
    proof {
        assert(views_of(args@) =~= seq!["mount"@, c.repository.path@, mount_point@]);
    }
    args
}

} // verus!
