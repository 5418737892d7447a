use vstd::prelude::*;

verus! {

/// File name of the diagnostics log, in the temporary directory.
pub const DIAGNOSTICS_LOG_NAME: &'static str = "turnocare-backend.log";

/// File name of the backend's captured standard output, in the resource directory.
pub const STDOUT_LOG_NAME: &'static str = "backend-stdout.log";

/// File name of the backend's captured standard error, in the resource directory.
pub const STDERR_LOG_NAME: &'static str = "backend-stderr.log";

/// How a log file is opened. Both modes create the file when it is missing.
#[derive(Clone, Copy, Debug, PartialEq, Eq, Structural)]
pub enum OpenMode {
    /// Earlier content stays; new content goes after it.
    Append,
    /// Earlier content is discarded on open.
    Truncate,
}

/// What a file holds after it was opened in `mode` while holding `before`
/// and then had `written` written to it.
pub open spec fn contents_after(mode: OpenMode, before: Seq<u8>, written: Seq<u8>) -> Seq<u8> {
    match mode {
        OpenMode::Append => before + written,
        OpenMode::Truncate => written,
    }
}

/// The mode of the two output-capture files: each launch starts them afresh.
pub fn capture_log_mode() -> (r: OpenMode)
    ensures
        r == OpenMode::Truncate,
{
    OpenMode::Truncate
}

/// The mode of the diagnostics file: every run adds to it.
pub fn diagnostics_log_mode() -> (r: OpenMode)
    ensures
        r == OpenMode::Append,
{
    OpenMode::Append
}

/// After two launches a capture file holds only what the second one wrote.
pub proof fn lemma_capture_keeps_last_run(before: Seq<u8>, first: Seq<u8>, second: Seq<u8>)
    ensures
        contents_after(OpenMode::Truncate, contents_after(OpenMode::Truncate, before, first), second)
            == second,
{
}

/// After two runs the diagnostics file holds what it held before, then the
/// first session, then the second, in that order.
pub proof fn lemma_diagnostics_keeps_every_run(before: Seq<u8>, first: Seq<u8>, second: Seq<u8>)
    ensures
        contents_after(OpenMode::Append, contents_after(OpenMode::Append, before, first), second)
            == before + first + second,
        contents_after(OpenMode::Append, contents_after(OpenMode::Append, before, first), second).subrange(
            before.len() as int,
            (before.len() + first.len()) as int,
        ) == first,
{
    let all = before + first + second;
    assert(all.subrange(before.len() as int, (before.len() + first.len()) as int) =~= first);
    assert(contents_after(OpenMode::Append, contents_after(OpenMode::Append, before, first), second)
        =~= all);
}

} // verus!
