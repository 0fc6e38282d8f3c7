use vstd::prelude::*;
use crate::job::{Build, BuildType, KindV, strings_view, copy_strings, text_eq};
use crate::protocol::{BuildTypeRequest, DoneRequest, Status, kind_name, kind_variants};
use crate::control::opt_text;
use crate::text::{join, join_words};

verus! {

/// Name of the file that keeps a build's log: architecture, host and time.
pub open spec fn log_file_name_spec(arch: Seq<char>, host: Seq<char>, stamp: Seq<char>) -> Seq<char> {
    "shipit-"@ + arch + "-"@ + host + "-"@ + stamp + ".txt"@
}

/// Names the file that keeps a build's log.
pub fn log_file_name(arch: &str, host: &str, stamp: &str) -> (r: String)
    ensures
        r@ == log_file_name_spec(arch@, host@, stamp@),
{
    let mut r = String::from_str("shipit-");
    r.append(arch);
    r.append("-");
    r.append(host);
    r.append("-");
    r.append(stamp);
    r.append(".txt");
    r
}

/// Where an uploaded log can be read.
pub open spec fn log_url_spec(file_name: Seq<char>) -> Seq<char> {
    "https://buildit.aosc.io/logs/"@ + file_name
}

/// The address of a log: present exactly when its upload was delivered.
pub fn log_url(delivered: bool, file_name: &str) -> (r: Option<String>)
    ensures
        opt_text(r) == (if delivered {
            Some(log_url_spec(file_name@))
        } else {
            None::<Seq<char>>
        }),
{
    if delivered {
        let mut u = String::from_str("https://buildit.aosc.io/logs/");
        u.append(file_name);
        Some(u)
    } else {
        None
    }
}

/// `user@host:dir`, the remote side of a secure copy.
pub open spec fn remote_spec(host: Seq<char>, dir: Seq<char>) -> Seq<char> {
    "maintainers@"@ + host + ":"@ + dir
}

/// Arguments of the secure copy that uploads a file to `dir` on `host`.
pub open spec fn upload_args_spec(key: Seq<char>, recursive: bool, path: Seq<char>, host: Seq<char>, dir: Seq<char>) -> Seq<Seq<char>> {
    if recursive {
        seq!["-i"@, key, "-r"@, path, remote_spec(host, dir)]
    } else {
        seq!["-i"@, key, path, remote_spec(host, dir)]
    }
}

/// Builds the arguments of the secure copy that uploads `path` to `dir` on `host`.
pub fn upload_args(key: &str, recursive: bool, path: &str, host: &str, dir: &str) -> (r: Vec<String>)
    ensures
        strings_view(r@) == upload_args_spec(key@, recursive, path@, host@, dir@),
{
    let mut r: Vec<String> = Vec::new();
    r.push(String::from_str("-i"));
    r.push(String::from_str(key));
    if recursive {
        r.push(String::from_str("-r"));
    }
    r.push(String::from_str(path));
    let mut remote = String::from_str("maintainers@");
    remote.append(host);
    remote.append(":");
    remote.append(dir);
    r.push(remote);
    proof {
        assert(strings_view(r@) =~= upload_args_spec(key@, recursive, path@, host@, dir@));
    }
    r
}

/// The directory that a release build of `arch` fills.
pub fn os_dir(arch: &str) -> (r: String)
    ensures
        r@ == "os-"@ + arch@,
{
    let mut r = String::from_str("os-");
    r.append(arch);
    r
}

/// Arguments of the release script: the script, then the variants in order.
pub fn release_script_args(variants: &Vec<String>) -> (r: Vec<String>)
    ensures
        strings_view(r@) == seq!["./contrib/generate-releases.sh"@] + strings_view(variants@),
{
    let mut r: Vec<String> = Vec::new();
    r.push(String::from_str("./contrib/generate-releases.sh"));
    let mut i: usize = 0;
    while i < variants.len()
        invariant
            i <= variants@.len(),
            r@.len() == i + 1,
            r@[0]@ == "./contrib/generate-releases.sh"@,
            forall|j: int| 1 <= j <= i ==> #[trigger] r@[j]@ == variants@[j - 1]@,
        decreases variants.len() - i,
    {
        r.push(variants[i].clone());
        i = i + 1;
    }
    proof {
        assert(strings_view(r@) =~= seq!["./contrib/generate-releases.sh"@] + strings_view(variants@));
    }
    r
}

/// Index of the last `.` of a file name, if any.
pub open spec fn last_dot_from(name: Seq<char>, i: int) -> Option<int>
    decreases i,
{
    if i <= 0 {
        None
    } else if name[i - 1] == '.' {
        Some(i - 1)
    } else {
        last_dot_from(name, i - 1)
    }
}

/// The extension of a file name: what follows its last `.`, unless that dot
/// opens the name or there is none.
pub open spec fn extension_spec(name: Seq<char>) -> Option<Seq<char>> {
    match last_dot_from(name, name.len() as int) {
        Some(k) => if k == 0 {
            None
        } else {
            Some(name.subrange(k + 1, name.len() as int))
        },
        None => None,
    }
}

/// The extension of a file name.
pub fn extension(name: &str) -> (r: Option<String>)
    ensures
        opt_text(r) == extension_spec(name@),
{
    let n = name.unicode_len();
    let mut i: usize = n;
    while i > 0
        invariant
            n == name@.len(),
            i <= n,
            last_dot_from(name@, n as int) == last_dot_from(name@, i as int),
        decreases i,
    {
        if name.get_char(i - 1) == '.' {
            if i - 1 == 0 {
                return None;
            }
            return Some(String::from_str(name.substring_char(i, n)));
        }
        i = i - 1;
    }
    None
}

/// Whether a file is a built image or its checksum, which is uploaded.
pub open spec fn is_image_artifact_spec(name: Seq<char>) -> bool {
    match extension_spec(name) {
        Some(e) => e == "iso"@ || e == "sha256sum"@,
        None => false,
    }
}

/// Whether a file is a built image or its checksum.
pub fn is_image_artifact(name: &str) -> (r: bool)
    ensures
        r == is_image_artifact_spec(name@),
{
    match extension(name) {
        Some(e) => text_eq(e.as_str(), "iso") || text_eq(e.as_str(), "sha256sum"),
        None => false,
    }
}

/// The directories that a live-image build leaves behind.
pub open spec fn stale_outputs() -> Seq<Seq<char>> {
    seq!["livekit"@, "iso"@, "to-squash"@, "memtest"@, "sb"@]
}

/// Whether an entry is a directory left by an earlier live-image build.
pub fn is_stale_output(name: &str) -> (r: bool)
    ensures
        r == stale_outputs().contains(name@),
{
    let r = text_eq(name, "livekit") || text_eq(name, "iso") || text_eq(name, "to-squash")
        || text_eq(name, "memtest") || text_eq(name, "sb");
    proof {
        if r {
            if name@ == "livekit"@ { assert(stale_outputs()[0] == name@); }
            else if name@ == "iso"@ { assert(stale_outputs()[1] == name@); }
            else if name@ == "to-squash"@ { assert(stale_outputs()[2] == name@); }
            else if name@ == "memtest"@ { assert(stale_outputs()[3] == name@); }
            else { assert(stale_outputs()[4] == name@); }
        }
    }
    r
}

/// The report that a worker sends once a build has ended.
pub fn completion_report(
    build: Build,
    success: bool,
    push_success: bool,
    log_url: Option<String>,
    date: String,
) -> (r: DoneRequest)
    ensures
        r.id == build.id,
        r.arch@ == build.arch@,
        r.build_type.name@ == kind_name(build.build_type@),
        r.build_type.variants_view() == kind_variants(build.build_type@),
        r.has_error == !success,
        r.push_success == push_success,
        opt_text(r.log_url) == opt_text(log_url),
        r.date@ == date@,
{
    DoneRequest {
        id: build.id,
        arch: build.arch,
        build_type: BuildTypeRequest::from(build.build_type),
        has_error: !success,
        log_url,
        push_success,
        date,
    }
}

/// What a worker does next.
pub enum AgentAction {
    /// Ask the control plane for work.
    Poll,
    /// Sleep this many milliseconds, then poll again.
    Wait(u64),
    /// Run the build of this record.
    Execute(Build),
}

/// Milliseconds a worker waits between polls.
pub const POLL_INTERVAL_MS: u64 = 300;

/// What a worker does with the answer to its poll: `None` when the poll
/// itself failed. It builds what it was given, and otherwise waits and polls
/// again.
pub fn after_poll(answer: Option<Status>) -> (r: AgentAction)
    ensures
        match answer {
            Some(Status::Working(b)) => r matches AgentAction::Execute(x) && x@ == b@,
            _ => r matches AgentAction::Wait(ms) && ms == POLL_INTERVAL_MS,
        },
{
    match answer {
        Some(Status::Working(b)) => AgentAction::Execute(b),
        _ => AgentAction::Wait(POLL_INTERVAL_MS),
    }
}

/// `cmd` followed by its arguments, as the log shows a command.
pub open spec fn command_text_spec(cmd: Seq<char>, args: Seq<Seq<char>>) -> Seq<char> {
    cmd + " "@ + join_words(args)
}

/// The log line written before a command runs.
pub fn running_line(now: &str, cmd: &str, args: &Vec<String>, cwd: &str) -> (r: String)
    ensures
        r@ == now@ + ": Running `"@ + command_text_spec(cmd@, strings_view(args@)) + "` in `"@ + cwd@ + "`\n"@,
{
    let mut r = String::from_str(now);
    r.append(": Running `");
    r.append(cmd);
    r.append(" ");
    let j = join(args);
    r.append(j.as_str());
    r.append("` in `");
    r.append(cwd);
    r.append("`\n");
    proof {
        assert(r@ =~= now@ + ": Running `"@ + command_text_spec(cmd@, strings_view(args@)) + "` in `"@ + cwd@ + "`\n"@);
    }
    r
}

/// The log line written after a command has run.
pub fn finished_line(now: &str, cmd: &str, args: &Vec<String>, elapsed: &str, status: &str) -> (r: String)
    ensures
        r@ == now@ + ": `"@ + command_text_spec(cmd@, strings_view(args@)) + "` finished in "@ + elapsed@ + " with "@
            + status@ + "\n"@,
{
    let mut r = String::from_str(now);
    r.append(": `");
    r.append(cmd);
    r.append(" ");
    let j = join(args);
    r.append(j.as_str());
    r.append("` finished in ");
    r.append(elapsed);
    r.append(" with ");
    r.append(status);
    r.append("\n");
    proof {
        assert(r@ =~= now@ + ": `"@ + command_text_spec(cmd@, strings_view(args@)) + "` finished in "@ + elapsed@
            + " with "@ + status@ + "\n"@);
    }
    r
}

} // verus!
