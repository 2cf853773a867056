//! The `create_test` test: a file is made, written, and read back.
//!
//! The test is a conversation. [`CreateStage::request`] says what is wanted of the
//! file system next, and [`create_test`] takes the answer.

use vstd::prelude::*;
use vstd::string::StringSliceAdditionalSpecFns;
use vstd::utf8::is_ascii_chars;

verus! {

/// What the test is about to do.
#[derive(Clone, Copy, Debug, PartialEq, Eq)]
pub enum CreateStage {
    /// Create the file while its directory is not there.
    TooEarly,
    /// Create the directory.
    Directory,
    /// Create the file.
    File,
    /// Write the file.
    Write,
    /// Open the file.
    Open,
    /// Read the file.
    Read,
}

/// What is wanted of the file system.
#[derive(Clone, Copy, Debug, PartialEq, Eq)]
pub enum CreateRequest {
    /// Create the file at [`file_path`].
    CreateFile,
    /// Create the directory at [`directory_path`].
    CreateDirectory,
    /// Write [`file_data`] to the file, and close it.
    Write,
    /// Open the file at [`file_path`] for reading.
    Open,
    /// Read the file to its end.
    ReadToEnd,
}

/// An error of the file system.
#[derive(Clone, Debug, PartialEq, Eq)]
pub struct FileError {
    /// The error says that something is not there.
    pub not_found: bool,
    /// The kind of the error, in the form in which it is shown for debugging.
    pub kind: String,
    /// The text of the error.
    pub message: String,
}

/// The answer to a request.
#[derive(Clone, Debug, PartialEq, Eq)]
pub enum FileReply {
    /// It was done.
    Done,
    /// It failed.
    Failed(FileError),
    /// What the file holds.
    Contents(Vec<u8>),
}

/// How the test stands.
#[derive(Clone, Debug, PartialEq, Eq)]
pub enum CreateOutcome {
    /// There is another request.
    Next(CreateStage),
    /// The test passed.
    Passed,
    /// The test failed, with this text.
    Failed(String),
    /// The test broke off: the file holds another number of bytes.
    Panicked(usize),
}

/// The bytes that are written to the file: the text `Test data`.
pub open spec fn data() -> Seq<u8> {
    seq![84, 101, 115, 116, 32, 100, 97, 116, 97]
}

/// The request of each stage.
pub open spec fn create_request(stage: CreateStage) -> CreateRequest {
    match stage {
        CreateStage::TooEarly => CreateRequest::CreateFile,
        CreateStage::Directory => CreateRequest::CreateDirectory,
        CreateStage::File => CreateRequest::CreateFile,
        CreateStage::Write => CreateRequest::Write,
        CreateStage::Open => CreateRequest::Open,
        CreateStage::Read => CreateRequest::ReadToEnd,
    }
}

/// The answer is of a kind that the request can have.
pub open spec fn file_answers(stage: CreateStage, reply: FileReply) -> bool {
    match reply {
        FileReply::Failed(_) => true,
        FileReply::Done => !(stage is Read),
        FileReply::Contents(_) => stage is Read,
    }
}

/// The stage behind a stage whose request was met.
pub open spec fn next_stage(stage: CreateStage) -> CreateStage {
    match stage {
        CreateStage::TooEarly => CreateStage::Directory,
        CreateStage::Directory => CreateStage::File,
        CreateStage::File => CreateStage::Write,
        CreateStage::Write => CreateStage::Open,
        CreateStage::Open => CreateStage::Read,
        CreateStage::Read => CreateStage::Read,
    }
}

/// The text for a file that could be created too early, or failed in another way.
pub open spec fn wrong_open_text(reply: FileReply) -> Seq<char> {
    "Incorrect open error: "@ + (match reply {
        FileReply::Failed(err) => "Some("@ + err.kind@ + ")"@,
        _ => "None"@,
    }) + ", should be NotFound"@
}

/// The text for a file that holds something else.
pub open spec fn wrong_data_text() -> Seq<char> {
    "test_dir/test_file did not contain the correct data"@
}

/// The outcome is the right one for an answer.
pub open spec fn create_step(stage: CreateStage, reply: FileReply, outcome: CreateOutcome) -> bool {
    match (stage, reply) {
        (CreateStage::TooEarly, FileReply::Failed(err)) if err.not_found => outcome
            == CreateOutcome::Next(CreateStage::Directory),
        (CreateStage::TooEarly, _) => outcome is Failed && outcome->Failed_0@ == wrong_open_text(
            reply,
        ),
        (_, FileReply::Failed(err)) => outcome == CreateOutcome::Failed(err.message),
        (CreateStage::Read, FileReply::Contents(found)) => if found@.len() != data().len() {
            outcome == CreateOutcome::Panicked(found@.len() as usize)
        } else if found@ == data() {
            outcome == CreateOutcome::Passed
        } else {
            outcome is Failed && outcome->Failed_0@ == wrong_data_text()
        },
        _ => outcome == CreateOutcome::Next(next_stage(stage)),
    }
}

/// The path of the directory.
pub fn directory_path() -> (path: &'static str)
    ensures
        path@ == "test_dir"@,
{
    "test_dir"
}

/// The path of the file.
pub fn file_path() -> (path: &'static str)
    ensures
        path@ == "test_dir/test_file"@,
{
    "test_dir/test_file"
}

/// The bytes that are written to the file.
pub fn file_data() -> (bytes: &'static [u8])
    ensures
        bytes@ == data(),
{
    let text = "Test data";
    proof {
        reveal_strlit("Test data");
        assert(is_ascii_chars(text@));
        vstd::string::is_ascii_spec_bytes(text);
        assert(text.spec_bytes() =~= data());
    }
    text.as_bytes()
}

impl CreateStage {
    /// Where the test begins.
    pub fn start() -> (stage: CreateStage)
        ensures
            stage is TooEarly,
    {
        CreateStage::TooEarly
    }

    /// Whether an answer is of a kind that the request of the stage can have.
    pub fn accepts(self, reply: &FileReply) -> (result: bool)
        ensures
            result == file_answers(self, *reply),
    {
        match (self, reply) {
            (_, FileReply::Failed(_)) => true,
            (CreateStage::Read, FileReply::Contents(_)) => true,
            (CreateStage::Read, FileReply::Done) => false,
            (_, FileReply::Done) => true,
            (_, FileReply::Contents(_)) => false,
        }
    }

    /// What the test wants next.
    pub fn request(self) -> (request: CreateRequest)
        ensures
            request == create_request(self),
    {
        match self {
            CreateStage::TooEarly => CreateRequest::CreateFile,
            CreateStage::Directory => CreateRequest::CreateDirectory,
            CreateStage::File => CreateRequest::CreateFile,
            CreateStage::Write => CreateRequest::Write,
            CreateStage::Open => CreateRequest::Open,
            CreateStage::Read => CreateRequest::ReadToEnd,
        }
    }
}

/// Compares what the file holds with what was written, byte by byte.
fn same_bytes(found: &[u8], wanted: &[u8]) -> (result: bool)
    requires
        found@.len() == wanted@.len(),
    ensures
        result == (found@ == wanted@),
{
    let mut i: usize = 0;
    while i < found.len()
        invariant
            i <= found@.len(),
            found@.len() == wanted@.len(),
            forall|j: int| 0 <= j < i ==> found@[j] == wanted@[j],
        decreases found@.len() - i,
    {
        if found[i] != wanted[i] {
            return false;
        }
        i = i + 1;
    }
    assert(found@ =~= wanted@);
    true
}

/// Takes the answer to the request of a stage, and says how the test stands.
pub fn create_test(stage: CreateStage, reply: FileReply) -> (outcome: CreateOutcome)
    requires
        file_answers(stage, reply),
    ensures
        create_step(stage, reply, outcome),
{
    match stage {
        CreateStage::TooEarly => {
            let mut text = "Incorrect open error: ".to_owned();
            match reply {
                FileReply::Failed(err) => {
                    if err.not_found {
                        return CreateOutcome::Next(CreateStage::Directory);
                    }
                    text.append("Some(");
                    text.append(err.kind.as_str());
                    text.append(")");
                },
                _ => text.append("None"),
            }
            text.append(", should be NotFound");
            assert(text@ =~= wrong_open_text(reply));
            CreateOutcome::Failed(text)
        },
        CreateStage::Read => match reply {
            FileReply::Failed(err) => CreateOutcome::Failed(err.message),
            FileReply::Contents(found) => {
                let wanted = file_data();
                if found.len() != wanted.len() {
                    CreateOutcome::Panicked(found.len())
                } else if same_bytes(found.as_slice(), wanted) {
                    CreateOutcome::Passed
                } else {
                    let mut text = file_path().to_owned();
                    text.append(" did not contain the correct data");
                    proof {
                        reveal_strlit("test_dir/test_file");
                        reveal_strlit(" did not contain the correct data");
                        reveal_strlit("test_dir/test_file did not contain the correct data");
                        assert(text@ =~= wrong_data_text());
                    }
                    CreateOutcome::Failed(text)
                }
            },
            FileReply::Done => CreateOutcome::Next(CreateStage::Read),
        },
        CreateStage::Directory => match reply {
            FileReply::Failed(err) => CreateOutcome::Failed(err.message),
            _ => CreateOutcome::Next(CreateStage::File),
        },
        CreateStage::File => match reply {
            FileReply::Failed(err) => CreateOutcome::Failed(err.message),
            _ => CreateOutcome::Next(CreateStage::Write),
        },
        CreateStage::Write => match reply {
            FileReply::Failed(err) => CreateOutcome::Failed(err.message),
            _ => CreateOutcome::Next(CreateStage::Open),
        },
        CreateStage::Open => match reply {
            FileReply::Failed(err) => CreateOutcome::Failed(err.message),
            _ => CreateOutcome::Next(CreateStage::Read),
        },
    }
}

/// The test passes at the end, and only if what is read back is what was written.
pub proof fn law_passing_reads_back_what_was_written(
    stage: CreateStage,
    reply: FileReply,
    outcome: CreateOutcome,
)
    requires
        file_answers(stage, reply),
        create_step(stage, reply, outcome),
    ensures
        outcome is Passed <==> stage is Read && reply is Contents && reply->Contents_0@ == data(),
{
}

/// How far a stage is from the end.
pub open spec fn stages_left(stage: CreateStage) -> nat {
    match stage {
        CreateStage::TooEarly => 5,
        CreateStage::Directory => 4,
        CreateStage::File => 3,
        CreateStage::Write => 2,
        CreateStage::Open => 1,
        CreateStage::Read => 0,
    }
}

/// Each answer brings the test one stage further or ends it.
pub proof fn law_every_answer_is_a_step(
    stage: CreateStage,
    reply: FileReply,
    outcome: CreateOutcome,
)
    requires
        file_answers(stage, reply),
        create_step(stage, reply, outcome),
    ensures
        outcome matches CreateOutcome::Next(next) ==> next == next_stage(stage) && stages_left(
            stage,
        ) == stages_left(next) + 1,
{
}

/// The stage of a test behind a number of outcomes.
pub open spec fn stage_at(outcomes: Seq<CreateOutcome>, n: int) -> CreateStage {
    if n == 0 {
        CreateStage::TooEarly
    } else {
        outcomes[n - 1]->Next_0
    }
}

/// An answer was given to the request of its stage and had its outcome, which did not
/// end the test unless it is the last.
pub open spec fn fits(replies: Seq<FileReply>, outcomes: Seq<CreateOutcome>, n: int) -> bool {
    &&& file_answers(stage_at(outcomes, n), replies[n])
    &&& create_step(stage_at(outcomes, n), replies[n], outcomes[n])
    &&& n + 1 < replies.len() ==> outcomes[n] is Next
}

/// A test from its beginning, by its answers and their outcomes.
pub open spec fn whole_test(replies: Seq<FileReply>, outcomes: Seq<CreateOutcome>) -> bool {
    &&& replies.len() == outcomes.len()
    &&& forall|n: int| 0 <= n < replies.len() ==> #[trigger] fits(replies, outcomes, n)
}

/// Each answer of a test belongs to the stage of its place.
proof fn lemma_stage_of_place(replies: Seq<FileReply>, outcomes: Seq<CreateOutcome>, n: int)
    requires
        whole_test(replies, outcomes),
        0 <= n < replies.len(),
    ensures
        n <= 5,
        stages_left(stage_at(outcomes, n)) == 5 - n,
    decreases n,
{
    if n > 0 {
        lemma_stage_of_place(replies, outcomes, n - 1);
        assert(fits(replies, outcomes, n - 1));
        law_every_answer_is_a_step(stage_at(outcomes, n - 1), replies[n - 1], outcomes[n - 1]);
    }
}

/// A test passes exactly if the file is not found too early, every request behind that
/// is met, and what is read at the end is what was written.
pub proof fn law_what_a_passing_test_has_seen(
    replies: Seq<FileReply>,
    outcomes: Seq<CreateOutcome>,
)
    requires
        whole_test(replies, outcomes),
        replies.len() > 0,
    ensures
        outcomes.last() is Passed <==> {
            &&& replies.len() == 6
            &&& replies[0] is Failed && replies[0]->Failed_0.not_found
            &&& forall|n: int| 1 <= n < 5 ==> #[trigger] replies[n] is Done
            &&& replies[5] is Contents && replies[5]->Contents_0@ == data()
        },
{
    let last = replies.len() - 1;
    lemma_stage_of_place(replies, outcomes, last);
    assert(fits(replies, outcomes, last));
    if outcomes.last() is Passed {
        assert(fits(replies, outcomes, 0));
        assert forall|n: int| 1 <= n < 5 implies #[trigger] replies[n] is Done by {
            lemma_stage_of_place(replies, outcomes, n);
            assert(fits(replies, outcomes, n));
        }
    }
}

/// An error of the file system is the failure of the test, unless it is the one that
/// the test wants to see first.
pub proof fn law_file_errors_are_reported(
    stage: CreateStage,
    err: FileError,
    outcome: CreateOutcome,
)
    requires
        !(stage is TooEarly),
        create_step(stage, FileReply::Failed(err), outcome),
    ensures
        outcome == CreateOutcome::Failed(err.message),
{
}

/// What a file system keeps of the test: whether the directory is there, and what the
/// file holds if it is there.
pub struct Files {
    pub directory: bool,
    pub file: Option<Seq<u8>>,
}

/// A file system that does everything right gives the answer, and keeps `after` of what
/// it had. A write writes all bytes, to a file that has just been created.
pub open spec fn right_answer(
    before: Files,
    request: CreateRequest,
    reply: FileReply,
    after: Files,
) -> bool {
    match request {
        CreateRequest::CreateFile => if before.directory {
            reply is Done && after == (Files { file: Some(Seq::empty()), ..before })
        } else {
            reply is Failed && reply->Failed_0.not_found && after == before
        },
        CreateRequest::CreateDirectory => if before.directory {
            reply is Failed && after == before
        } else {
            reply is Done && after == (Files { directory: true, file: None })
        },
        CreateRequest::Write => if before.file is Some {
            reply is Done && after == (Files { file: Some(data()), ..before })
        } else {
            reply is Failed && after == before
        },
        CreateRequest::Open => after == before && if before.file is Some {
            reply is Done
        } else {
            reply is Failed
        },
        CreateRequest::ReadToEnd => after == before && match before.file {
            Some(contents) => reply is Contents && reply->Contents_0@ == contents,
            None => reply is Failed,
        },
    }
}

/// A file system that does everything right gave an answer of the test.
pub open spec fn rightly_answered(
    states: Seq<Files>,
    replies: Seq<FileReply>,
    outcomes: Seq<CreateOutcome>,
    n: int,
) -> bool {
    right_answer(
        states[n],
        create_request(stage_at(outcomes, n)),
        replies[n],
        states[n + 1],
    )
}

/// A test from its beginning on a file system that does everything right, up to its end:
/// `states` is what the file system keeps, before the test and behind each answer.
pub open spec fn test_on(
    states: Seq<Files>,
    replies: Seq<FileReply>,
    outcomes: Seq<CreateOutcome>,
) -> bool {
    &&& whole_test(replies, outcomes)
    &&& replies.len() > 0
    &&& !(outcomes.last() is Next)
    &&& states.len() == replies.len() + 1
    &&& forall|n: int|
        0 <= n < replies.len() ==> #[trigger] rightly_answered(states, replies, outcomes, n)
}

/// The test passes on a file system that has no such directory yet, and leaves the
/// directory there and the file with what was written.
pub proof fn law_the_first_test_passes(
    states: Seq<Files>,
    replies: Seq<FileReply>,
    outcomes: Seq<CreateOutcome>,
)
    requires
        test_on(states, replies, outcomes),
        !states[0].directory,
    ensures
        outcomes.last() is Passed,
        states.last() == (Files { directory: true, file: Some(data()) }),
{
    assert(fits(replies, outcomes, 0) && rightly_answered(states, replies, outcomes, 0));
    assert(fits(replies, outcomes, 1) && rightly_answered(states, replies, outcomes, 1));
    assert(fits(replies, outcomes, 2) && rightly_answered(states, replies, outcomes, 2));
    assert(fits(replies, outcomes, 3) && rightly_answered(states, replies, outcomes, 3));
    assert(fits(replies, outcomes, 4) && rightly_answered(states, replies, outcomes, 4));
    assert(fits(replies, outcomes, 5) && rightly_answered(states, replies, outcomes, 5));
    lemma_stage_of_place(replies, outcomes, replies.len() - 1);
}

/// On a file system that has the directory already the test fails at once, and empties
/// the file that it creates too early.
proof fn lemma_test_on_used_files(
    states: Seq<Files>,
    replies: Seq<FileReply>,
    outcomes: Seq<CreateOutcome>,
)
    requires
        test_on(states, replies, outcomes),
        states[0].directory,
    ensures
        replies.len() == 1,
        outcomes.last() is Failed,
        outcomes.last()->Failed_0@ == "Incorrect open error: None, should be NotFound"@,
        states.last() == (Files { directory: true, file: Some(Seq::empty()) }),
{
    assert(fits(replies, outcomes, 0) && rightly_answered(states, replies, outcomes, 0));
    reveal_strlit("Incorrect open error: ");
    reveal_strlit("None");
    reveal_strlit(", should be NotFound");
    reveal_strlit("Incorrect open error: None, should be NotFound");
    assert(wrong_open_text(FileReply::Done)
        =~= "Incorrect open error: None, should be NotFound"@);
}

/// A second test behind one that passed fails at once, because the file can be created,
/// which leaves it empty and the directory there.
pub proof fn law_a_second_test_fails(
    states: Seq<Files>,
    replies: Seq<FileReply>,
    outcomes: Seq<CreateOutcome>,
    later_states: Seq<Files>,
    later_replies: Seq<FileReply>,
    later_outcomes: Seq<CreateOutcome>,
)
    requires
        test_on(states, replies, outcomes),
        outcomes.last() is Passed,
        test_on(later_states, later_replies, later_outcomes),
        later_states[0] == states.last(),
    ensures
        later_replies.len() == 1,
        later_outcomes.last() is Failed,
        later_outcomes.last()->Failed_0@ == "Incorrect open error: None, should be NotFound"@,
        later_states.last() == (Files { directory: true, file: Some(Seq::empty()) }),
{
    if states[0].directory {
        lemma_test_on_used_files(states, replies, outcomes);
    } else {
        law_the_first_test_passes(states, replies, outcomes);
        lemma_test_on_used_files(later_states, later_replies, later_outcomes);
    }
}

/// The bytes that are written are those of the text `Test data`, one for each character.
pub proof fn law_what_is_written()
    ensures
        data().len() == "Test data"@.len(),
        forall|i: int| 0 <= i < data().len() ==> #[trigger] data()[i] as char == "Test data"@[i],
{
    reveal_strlit("Test data");
}

/// Whatever is read back, the test breaks off over another number of bytes than the nine
/// that were written, fails if they are nine and one of them is another, and passes if
/// none is.
pub proof fn law_every_byte_is_compared(found: Vec<u8>, outcome: CreateOutcome)
    requires
        create_step(CreateStage::Read, FileReply::Contents(found), outcome),
    ensures
        outcome is Panicked <==> found@.len() != 9,
        outcome matches CreateOutcome::Panicked(length) ==> length == found@.len() as usize,
        outcome is Failed <==> found@.len() == 9 && exists|i: int|
            0 <= i < 9 && #[trigger] found@[i] as char != "Test data"@[i],
        outcome is Passed <==> found@.len() == 9 && forall|i: int|
            0 <= i < 9 ==> #[trigger] found@[i] as char == "Test data"@[i],
        outcome is Failed ==> outcome->Failed_0@ == "test_dir/test_file"@
            + " did not contain the correct data"@,
{
    law_what_is_written();
    reveal_strlit("Test data");
    reveal_strlit("test_dir/test_file");
    reveal_strlit(" did not contain the correct data");
    reveal_strlit("test_dir/test_file did not contain the correct data");
    assert(wrong_data_text() =~= "test_dir/test_file"@ + " did not contain the correct data"@);
    if found@.len() == 9 {
        if forall|i: int| 0 <= i < 9 ==> #[trigger] found@[i] as char == "Test data"@[i] {
            assert forall|i: int| 0 <= i < 9 implies found@[i] == data()[i] by {
                assert(found@[i] as char == "Test data"@[i]);
                assert(data()[i] as char == "Test data"@[i]);
            }
            assert(found@ =~= data());
        }
    }
}

/// The first creation of the file has to fail because something is not there. If it fails
/// for another reason the test fails and names the kind of the error, and if it succeeds
/// the test fails and says so.
pub proof fn law_the_file_must_not_be_found_too_early(reply: FileReply, outcome: CreateOutcome)
    requires
        file_answers(CreateStage::TooEarly, reply),
        create_step(CreateStage::TooEarly, reply, outcome),
    ensures
        outcome == CreateOutcome::Next(CreateStage::Directory) <==> reply is Failed
            && reply->Failed_0.not_found,
        reply matches FileReply::Failed(err) ==> !err.not_found ==> outcome is Failed
            && outcome->Failed_0@ == "Incorrect open error: Some("@ + err.kind@
            + "), should be NotFound"@,
        !(reply is Failed) ==> outcome is Failed && outcome->Failed_0@
            == "Incorrect open error: None, should be NotFound"@,
{
    reveal_strlit("Incorrect open error: ");
    reveal_strlit("Incorrect open error: Some(");
    reveal_strlit("Incorrect open error: None, should be NotFound");
    reveal_strlit("Some(");
    reveal_strlit("None");
    reveal_strlit(")");
    reveal_strlit("), should be NotFound");
    reveal_strlit(", should be NotFound");
    match reply {
        FileReply::Failed(err) => {
            assert(wrong_open_text(reply) =~= "Incorrect open error: Some("@ + err.kind@
                + "), should be NotFound"@);
        },
        _ => {
            assert(wrong_open_text(reply)
                =~= "Incorrect open error: None, should be NotFound"@);
        },
    }
}

/// The directory is created before the file, the file before it is written, and it is
/// written before it is opened and read: these are the requests in their order, as long as
/// each of them is met.
pub proof fn law_requests_come_in_order(stage: CreateStage, outcome: CreateOutcome)
    requires
        create_step(stage, FileReply::Done, outcome),
        !(stage is TooEarly),
        !(stage is Read),
    ensures
        outcome is Next,
        match create_request(stage) {
            CreateRequest::CreateDirectory => create_request(outcome->Next_0) is CreateFile
                && !(outcome->Next_0 is TooEarly),
            CreateRequest::CreateFile => create_request(outcome->Next_0) is Write,
            CreateRequest::Write => create_request(outcome->Next_0) is Open,
            CreateRequest::Open => create_request(outcome->Next_0) is ReadToEnd,
            CreateRequest::ReadToEnd => false,
        },
        create_request(CreateStage::TooEarly) is CreateFile,
        create_request(CreateStage::Directory) is CreateDirectory,
{
}

/// A request that cannot be met ends the test with the text of the error; the one that
/// reads is answered with what the file holds, and the others with nothing.
pub proof fn law_answers_to_files(stage: CreateStage, reply: FileReply)
    ensures
        reply is Failed ==> file_answers(stage, reply),
        reply is Contents ==> (file_answers(stage, reply) <==> create_request(stage) is ReadToEnd),
        reply is Done ==> (file_answers(stage, reply) <==> !(create_request(stage) is ReadToEnd)),
{
}

} // verus!
