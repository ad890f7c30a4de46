//! The server that sends inputs by block number alone: its commands, and what a
//! client is sent for them.

use vstd::prelude::*;
use vstd::string::*;

use crate::input::BlockHeader;
#[allow(unused_imports)]
use crate::inputgen::url_text;
use crate::inputgen::{parse_url, InputError};
#[allow(unused_imports)]
use crate::text::{decimal, law_decimal_is_digits, law_two_words, views, words};
use crate::text::{decimal_string, push_decimal, split_whitespace};

verus! {

/// What the server does when its subscription to new blocks gives something.
#[derive(Clone, Copy, Debug, PartialEq, Eq, Structural)]
pub enum GeneratorStep {
    /// Go on listening; the number is that of the last block seen.
    Listen { last_seen: u64 },
    /// Announce the block and make its input.
    Generate { block_number: u64 },
}

/// Decides what the server does when its subscription to new blocks gives a
/// header, or ends: it takes blocks whose number is a multiple of the modulus,
/// and at the end the last one it has seen.
pub fn input_file_generator(header: Option<&BlockHeader>, last_seen: u64, modulus: u64) -> (r:
    GeneratorStep)
    requires
        modulus > 0,
    ensures
        r == match header {
            None => GeneratorStep::Generate { block_number: last_seen },
            Some(block) => match block.number {
                None => GeneratorStep::Listen { last_seen },
                Some(number) => if number % modulus == 0 {
                    GeneratorStep::Generate { block_number: number }
                } else {
                    GeneratorStep::Listen { last_seen: number }
                },
            },
        },
{
    match header {
        None => GeneratorStep::Generate { block_number: last_seen },
        Some(block) => match block.number {
            None => GeneratorStep::Listen { last_seen },
            Some(number) => if number % modulus == 0 {
                GeneratorStep::Generate { block_number: number }
            } else {
                GeneratorStep::Listen { last_seen: number }
            },
        },
    }
}

/// The name of the input file of a block.
pub open spec fn file_of(block_number: u64) -> Seq<char> {
    decimal(block_number as nat) + ".bin"@
}

/// The command that announces a block.
pub open spec fn queued_of(block_number: u64) -> Seq<char> {
    "queued"@ + " "@ + decimal(block_number as nat)
}

/// The command that announces the input of a block.
pub open spec fn input_of(block_number: u64) -> Seq<char> {
    "input"@ + " "@ + file_of(block_number)
}

/// The input of a block: the node it is made from, the block whose state it
/// starts from, and the name of the file it is written to.
#[derive(Debug)]
pub struct InputJob {
    pub rpc_url: String,
    pub parent: u64,
    pub filename: String,
}

/// What the input of a block is made from, given the URL of the node if there is
/// one, and where it is written.
pub fn input_job(block_number: u64, rpc_url: Option<String>) -> (r: Result<InputJob, InputError>)
    requires
        block_number > 0,
    ensures
        match rpc_url {
            Some(url) => r is Ok && r->Ok_0.rpc_url == url && r->Ok_0.parent == block_number - 1
                && r->Ok_0.filename@ == file_of(block_number),
            None => r == Err::<InputJob, InputError>(InputError::UrlInvalid),
        },
{
    match rpc_url {
        Some(rpc_url) => {
            let mut filename = decimal_string(block_number);
            filename.append(".bin");
            Ok(InputJob { rpc_url, parent: block_number - 1, filename })
        },
        None => Err(InputError::UrlInvalid),
    }
}

/// What the input of a block is made from, with the URL of the node from a
/// setting, and where it is written.
pub fn generate_input_file(block_number: u64, rpc_url: &Option<String>) -> (r: Result<
    InputJob,
    InputError,
>)
    requires
        block_number > 0,
    ensures
        match r {
            Ok(job) => rpc_url is Some && url_text(rpc_url->0@) == Some(job.rpc_url@)
                && job.parent == block_number - 1 && job.filename@ == file_of(block_number),
            Err(InputError::UrlNotSet) => rpc_url is None,
            Err(InputError::UrlInvalid) => rpc_url is Some && url_text(rpc_url->0@) is None,
        },
{
    match rpc_url {
        Some(text) => input_job(block_number, parse_url(text.as_str())),
        None => Err(InputError::UrlNotSet),
    }
}

/// The command that announces a block.
pub fn queued_command(block_number: u64) -> (r: String)
    ensures
        r@ == queued_of(block_number),
{
    let mut command = "queued".to_owned();
    command.append(" ");
    push_decimal(&mut command, block_number);
    command
}

/// The command that announces the input of a block.
pub fn input_command(block_number: u64) -> (r: String)
    ensures
        r@ == input_of(block_number),
{
    let mut command = "input".to_owned();
    command.append(" ");
    push_decimal(&mut command, block_number);
    command.append(".bin");
    assert(command@ =~= input_of(block_number));
    command
}

/// What a client is sent for a command.
#[derive(Debug)]
pub enum CommandStep {
    /// Nothing: the client has the input already.
    AlreadySent,
    /// A text.
    SendQueued { payload: String },
    /// The command, followed by the contents of a file.
    SendInput { file: String },
    /// Nothing: the command is not known.
    Unknown,
}

/// The contents of a [`CommandStep`].
pub enum CommandStepView {
    AlreadySent,
    SendQueued { payload: Seq<char> },
    SendInput { file: Seq<char> },
    Unknown,
}

impl View for CommandStep {
    type V = CommandStepView;

    open spec fn view(&self) -> CommandStepView {
        match *self {
            CommandStep::AlreadySent => CommandStepView::AlreadySent,
            CommandStep::SendQueued { payload } => CommandStepView::SendQueued {
                payload: payload@,
            },
            CommandStep::SendInput { file } => CommandStepView::SendInput { file: file@ },
            CommandStep::Unknown => CommandStepView::Unknown,
        }
    }
}

/// What a command asks for: its first word and its argument.
pub open spec fn asked(command: Seq<char>) -> CommandStepView {
    let args = words(command);
    if args.len() == 2 && args[0] == "queued"@ {
        CommandStepView::SendQueued { payload: "queued"@ + " "@ + args[1] }
    } else if args.len() == 2 && args[0] == "input"@ {
        CommandStepView::SendInput { file: args[1] }
    } else {
        CommandStepView::Unknown
    }
}

/// What a client that has been sent the inputs of the commands `sent` is sent
/// for a command.
pub open spec fn answer(sent: Set<Seq<char>>, command: Seq<char>) -> CommandStepView {
    if sent.contains(command) {
        CommandStepView::AlreadySent
    } else {
        asked(command)
    }
}

/// The connection of a client: the commands whose inputs it has been sent.
#[derive(Debug)]
pub struct Session {
    sent: Vec<String>,
}

impl View for Session {
    type V = Set<Seq<char>>;

    closed spec fn view(&self) -> Set<Seq<char>> {
        Set::new(|command: Seq<char>| views(self.sent@).contains(command))
    }
}

impl Session {
    /// Only commands that ask for an input are noted, and none twice.
    pub closed spec fn well_formed(&self) -> bool {
        &&& views(self.sent@).no_duplicates()
        &&& forall|command: Seq<char>| #[trigger]
            self@.contains(command) ==> asked(command) is SendInput
    }

    /// A client that has been sent nothing.
    pub fn new() -> (r: Self)
        ensures
            r@ == Set::<Seq<char>>::empty(),
            r.well_formed(),
    {
        let r = Session { sent: Vec::new() };
        assert(r@ =~= Set::<Seq<char>>::empty());
        r
    }

    fn has(&self, command: &String) -> (r: bool)
        ensures
            r == self@.contains(command@),
    {
        let mut i: usize = 0;
        while i < self.sent.len()
            invariant
                i <= self.sent.len(),
                forall|j: int| 0 <= j < i ==> #[trigger] views(self.sent@)[j] != command@,
            decreases self.sent.len() - i,
        {
            if self.sent[i] == *command {
                assert(views(self.sent@)[i as int] == command@);
                return true;
            }
            i += 1;
        }
        false
    }

    /// Decides what the client is sent for a command.
    pub fn handle_client(&self, command: &String) -> (r: CommandStep)
        ensures
            r@ == answer(self@, command@),
    {
        if self.has(command) {
            return CommandStep::AlreadySent;
        }
        let args = split_whitespace(command.as_str());
        if args.len() != 2 {
            return CommandStep::Unknown;
        }
        assert(views(args@)[0] == args@[0]@ && views(args@)[1] == args@[1]@);
        if args[0] == "queued".to_owned() {
            let mut payload = "queued".to_owned();
            payload.append(" ");
            payload.append(args[1].as_str());
            CommandStep::SendQueued { payload }
        } else if args[0] == "input".to_owned() {
            CommandStep::SendInput { file: args[1].clone() }
        } else {
            CommandStep::Unknown
        }
    }

    /// Notes that the client has been sent the input of a command.
    pub fn note_sent(&mut self, command: String)
        requires
            old(self).well_formed(),
            asked(command@) is SendInput,
        ensures
            final(self)@ == old(self)@.insert(command@),
            final(self).well_formed(),
    {
        if self.has(&command) {
            assert(self@ =~= old(self)@.insert(command@));
            return;
        }
        let ghost before = views(self.sent@);
        self.sent.push(command);
        proof {
            let after = views(self.sent@);
            assert(after =~= before.push(command@));
            assert forall|c: Seq<char>| after.contains(c) <==> before.contains(c) || c == command@ by {
                if before.contains(c) {
                    let i = choose|i: int| 0 <= i < before.len() && before[i] == c;
                    assert(after[i] == c);
                }
                if c == command@ {
                    assert(after[before.len() as int] == c);
                }
            }
            assert(self@ =~= old(self)@.insert(command@));
            assert(after.no_duplicates()) by {
                assert(!before.contains(command@));
            }
        }
    }
}

/// The server's own commands are understood: a client is sent the announcement
/// of a block as it stands, and the input of a block from the file that was
/// written for it.
pub proof fn law_commands_are_understood(block_number: u64)
    ensures
        asked(queued_of(block_number)) == (CommandStepView::SendQueued {
            payload: queued_of(block_number),
        }),
        asked(input_of(block_number)) == (CommandStepView::SendInput {
            file: file_of(block_number),
        }),
{
    let d = decimal(block_number as nat);
    law_decimal_is_digits(block_number as nat);
    reveal_strlit("queued");
    reveal_strlit("input");
    reveal_strlit(".bin");
    reveal_strlit(" ");
    assert(" "@ =~= seq![' ']);
    law_two_words("queued"@, d);
    law_two_words("input"@, file_of(block_number));
}

/// An input is sent once: its command is skipped from then on, whatever else is
/// sent.
pub proof fn law_input_is_sent_once(
    before: Set<Seq<char>>,
    command: Seq<char>,
    later: Set<Seq<char>>,
)
    requires
        before.insert(command).subset_of(later),
    ensures
        answer(later, command) == CommandStepView::AlreadySent,
{
    assert(before.insert(command).contains(command));
}

/// The announcement of a block is never skipped.
pub proof fn law_announcement_is_never_skipped(session: Session, block_number: u64)
    requires
        session.well_formed(),
    ensures
        answer(session@, queued_of(block_number)) == (CommandStepView::SendQueued {
            payload: queued_of(block_number),
        }),
{
    law_commands_are_understood(block_number);
}

/// The file of a block is named after its number, and its commands name the block
/// and the file.
pub proof fn law_commands_name_the_block(block_number: u64)
    ensures
        file_of(block_number) == decimal(block_number as nat) + ".bin"@,
        queued_of(block_number) == "queued"@ + " "@ + decimal(block_number as nat),
        input_of(block_number) == "input"@ + " "@ + decimal(block_number as nat) + ".bin"@,
{
    assert(input_of(block_number) =~= "input"@ + " "@ + decimal(block_number as nat) + ".bin"@);
}

/// What any command asks for: two words of which the first is `queued` ask for an
/// announcement with the second, two of which the first is `input` for the file of
/// that name, and anything else for nothing.
pub proof fn law_what_commands_ask_for(command: Seq<char>)
    ensures
        ({
            let args = words(command);
            &&& asked(command) is Unknown <==> args.len() != 2 || (args[0] != "queued"@
                && args[0] != "input"@)
            &&& args.len() == 2 && args[0] == "queued"@ ==> asked(command)
                == (CommandStepView::SendQueued { payload: "queued"@ + " "@ + args[1] })
            &&& args.len() == 2 && args[0] == "input"@ ==> asked(command)
                == (CommandStepView::SendInput { file: args[1] })
            &&& asked(command) !is AlreadySent
        }),
{
    reveal_strlit("queued");
    reveal_strlit("input");
    assert("queued"@.len() != "input"@.len());
}

/// A command is skipped exactly if its input has been sent, and answered with what
/// it asks for otherwise.
pub proof fn law_only_sent_inputs_are_skipped(sent: Set<Seq<char>>, command: Seq<char>)
    ensures
        answer(sent, command) is AlreadySent <==> sent.contains(command),
        !sent.contains(command) ==> answer(sent, command) == asked(command),
{
    law_what_commands_ask_for(command);
}

/// The contents of a step are those of its fields.
pub proof fn law_step_contents(step: CommandStep)
    ensures
        step is AlreadySent <==> step@ is AlreadySent,
        step is Unknown <==> step@ is Unknown,
        step matches CommandStep::SendQueued { payload } ==> step@ == (
        CommandStepView::SendQueued { payload: payload@ }),
        step matches CommandStep::SendInput { file } ==> step@ == (CommandStepView::SendInput {
            file: file@,
        }),
{
}

} // verus!
