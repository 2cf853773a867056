//! The `tcp_fin` test: a connection is opened, written to once, and dropped.

use vstd::prelude::*;
use vstd::string::StringSliceAdditionalSpecFns;
use vstd::utf8::is_ascii_chars;

verus! {

/// What the test is about to do.
#[derive(Clone, Debug, PartialEq, Eq)]
pub enum TcpStage {
    /// Connect to [`server_address`].
    Connect,
    /// Write [`greeting`], once.
    Write,
    /// Drop the connection that was written to.
    Close,
    /// Drop the connection that could not be written to, for this reason.
    CloseFailed(String),
}

/// How the test stands.
#[derive(Clone, Debug, PartialEq, Eq)]
pub enum TcpOutcome {
    /// There is another thing to do.
    Next(TcpStage),
    /// The test passed.
    Passed,
    /// The test failed, with this text.
    Failed(String),
}

/// The bytes that are written: the text `TEST`.
pub open spec fn greeting_bytes() -> Seq<u8> {
    seq![84, 69, 83, 84]
}

/// How the test goes on. An error is its failure, but a connection that was made is
/// dropped first. Dropping does not fail.
pub open spec fn tcp_step(stage: TcpStage, reply: Result<(), String>) -> TcpOutcome {
    match (stage, reply) {
        (TcpStage::Connect, Ok(_)) => TcpOutcome::Next(TcpStage::Write),
        (TcpStage::Connect, Err(message)) => TcpOutcome::Failed(message),
        (TcpStage::Write, Ok(_)) => TcpOutcome::Next(TcpStage::Close),
        (TcpStage::Write, Err(message)) => TcpOutcome::Next(TcpStage::CloseFailed(message)),
        (TcpStage::Close, _) => TcpOutcome::Passed,
        (TcpStage::CloseFailed(message), _) => TcpOutcome::Failed(message),
    }
}

/// The connection is open when a stage begins.
pub open spec fn open_at(stage: TcpStage) -> bool {
    !(stage is Connect)
}

/// The connection is open behind a stage: it was made there, or was open before and
/// was not dropped there.
pub open spec fn open_behind(stage: TcpStage, reply: Result<(), String>) -> bool {
    match stage {
        TcpStage::Connect => reply is Ok,
        TcpStage::Write => true,
        TcpStage::Close | TcpStage::CloseFailed(_) => false,
    }
}

/// The server that is connected to.
pub fn server_address() -> (address: &'static str)
    ensures
        address@ == "static.redox-os.org:80"@,
{
    "static.redox-os.org:80"
}

/// The bytes that are written.
pub fn greeting() -> (bytes: &'static [u8])
    ensures
        bytes@ == greeting_bytes(),
{
    let text = "TEST";
    proof {
        reveal_strlit("TEST");
        assert(is_ascii_chars(text@));
        vstd::string::is_ascii_spec_bytes(text);
        assert(text.spec_bytes() =~= greeting_bytes());
    }
    text.as_bytes()
}

impl TcpStage {
    /// Where the test begins.
    pub fn start() -> (stage: TcpStage)
        ensures
            stage is Connect,
    {
        TcpStage::Connect
    }
}

/// Takes what came of a stage, and says how the test stands.
pub fn tcp_fin_test(stage: TcpStage, reply: Result<(), String>) -> (outcome: TcpOutcome)
    ensures
        outcome == tcp_step(stage, reply),
{
    match stage {
        TcpStage::Connect => match reply {
            Ok(_) => TcpOutcome::Next(TcpStage::Write),
            Err(message) => TcpOutcome::Failed(message),
        },
        TcpStage::Write => match reply {
            Ok(_) => TcpOutcome::Next(TcpStage::Close),
            Err(message) => TcpOutcome::Next(TcpStage::CloseFailed(message)),
        },
        TcpStage::Close => TcpOutcome::Passed,
        TcpStage::CloseFailed(message) => TcpOutcome::Failed(message),
    }
}

/// The test ends without a connection, whether it passes or fails, and it goes on with
/// one until it has dropped it.
pub proof fn law_no_connection_is_left_open(stage: TcpStage, reply: Result<(), String>)
    ensures
        match tcp_step(stage, reply) {
            TcpOutcome::Next(next) => open_at(next) && open_behind(stage, reply),
            _ => !open_behind(stage, reply),
        },
{
}

/// How the whole test ends, from what came of connecting and of writing.
pub open spec fn tcp_end(connected: Result<(), String>, written: Result<(), String>) -> TcpOutcome {
    match tcp_step(TcpStage::Connect, connected) {
        TcpOutcome::Next(write) => match tcp_step(write, written) {
            TcpOutcome::Next(close) => tcp_step(close, Ok(())),
            outcome => outcome,
        },
        outcome => outcome,
    }
}

/// The test passes exactly if the connection is made and written to. It is over behind
/// three things at most, of which one is the write, and it fails with the first error.
pub proof fn law_connected_and_written_is_passed(
    connected: Result<(), String>,
    written: Result<(), String>,
)
    ensures
        !(tcp_end(connected, written) is Next),
        tcp_end(connected, written) is Passed <==> connected is Ok && written is Ok,
        connected matches Err(message) ==> tcp_end(connected, written) == TcpOutcome::Failed(
            message,
        ),
        connected is Ok ==> (written matches Err(message) ==> tcp_end(connected, written)
            == TcpOutcome::Failed(message)),
{
}

/// The connection is made before it is written to, it is written to exactly once, and
/// behind the write it is dropped: an error there is kept for the end.
pub proof fn law_one_write_between_connect_and_close(reply: Result<(), String>)
    ensures
        reply is Ok ==> tcp_step(TcpStage::Connect, reply) == TcpOutcome::Next(TcpStage::Write)
            && tcp_step(TcpStage::Write, reply) == TcpOutcome::Next(TcpStage::Close),
        reply matches Err(message) ==> tcp_step(TcpStage::Connect, reply) == TcpOutcome::Failed(
            message,
        ) && tcp_step(TcpStage::Write, reply) == TcpOutcome::Next(TcpStage::CloseFailed(message)),
{
}

/// Dropping the connection decides nothing: how the test ends was settled by the write.
pub proof fn law_dropping_decides_nothing(reply: Result<(), String>, reason: String)
    ensures
        tcp_step(TcpStage::Close, reply) is Passed,
        tcp_step(TcpStage::CloseFailed(reason), reply) == TcpOutcome::Failed(reason),
{
}

/// What is written are the bytes of the text `TEST`, one for each character.
pub proof fn law_what_is_sent()
    ensures
        greeting_bytes().len() == "TEST"@.len(),
        forall|i: int|
            0 <= i < greeting_bytes().len() ==> #[trigger] greeting_bytes()[i] as char
                == "TEST"@[i],
{
    reveal_strlit("TEST");
}

} // verus!
