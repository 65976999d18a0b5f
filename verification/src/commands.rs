//! The command router: inbound text of the form `/verb[@botname] [arg]`
//! mapped to the bot's verb set, aliases included. A command addressed to
//! another bot, and any unknown verb, is ignored.

use vstd::prelude::*;
use vstd::string::StrSliceExecFns;
use crate::text::{chars_of, range_eq_str};

verus! {

/// The verbs a message can carry. A parameterized verb holds its raw
/// argument text: everything after the first space, or empty.
pub enum Command {
    Start,
    Help,
    Play,
    Next,
    Prev,
    Current,
    Queue,
    AddYt,
    Search(String),
    AddRand(String),
    AddAll,
    AddFile,
    Clear,
    Shuffle,
    Stats,
}

/// The verbs as plain values, for contracts.
pub enum SpecCommand {
    Start,
    Help,
    Play,
    Next,
    Prev,
    Current,
    Queue,
    AddYt,
    Search(Seq<char>),
    AddRand(Seq<char>),
    AddAll,
    AddFile,
    Clear,
    Shuffle,
    Stats,
}

impl View for Command {
    type V = SpecCommand;

    open spec fn view(&self) -> SpecCommand {
        match self {
            Command::Start => SpecCommand::Start,
            Command::Help => SpecCommand::Help,
            Command::Play => SpecCommand::Play,
            Command::Next => SpecCommand::Next,
            Command::Prev => SpecCommand::Prev,
            Command::Current => SpecCommand::Current,
            Command::Queue => SpecCommand::Queue,
            Command::AddYt => SpecCommand::AddYt,
            Command::Search(q) => SpecCommand::Search(q@),
            Command::AddRand(n) => SpecCommand::AddRand(n@),
            Command::AddAll => SpecCommand::AddAll,
            Command::AddFile => SpecCommand::AddFile,
            Command::Clear => SpecCommand::Clear,
            Command::Shuffle => SpecCommand::Shuffle,
            Command::Stats => SpecCommand::Stats,
        }
    }
}

/// The index of the first occurrence of `c` in `s`, or the length of
/// `s` where it does not occur.
pub open spec fn first_index_of(s: Seq<char>, c: char) -> int
    decreases s.len(),
{
    if s.len() == 0 {
        0
    } else if s.first() == c {
        0
    } else {
        1 + first_index_of(s.drop_first(), c)
    }
}

/// Law: the first index of `c` is the one position with nothing equal
/// to `c` before it and `c` at it, unless `c` does not occur at all.
pub proof fn lemma_first_index_is(s: Seq<char>, c: char, m: int)
    requires
        0 <= m <= s.len(),
        forall|j: int| 0 <= j < m ==> s[j] != c,
        m < s.len() ==> s[m] == c,
    ensures
        first_index_of(s, c) == m,
    decreases s.len(),
{
    if s.len() == 0 {
    } else if s.first() == c {
        assert(m == 0);
    } else {
        assert(m >= 1);
        assert forall|j: int| 0 <= j < m - 1 implies s.drop_first()[j] != c by {
            assert(s.drop_first()[j] == s[j + 1]);
        }
        assert(m - 1 < s.drop_first().len() ==> s.drop_first()[m - 1] == c);
        lemma_first_index_is(s.drop_first(), c, m - 1);
    }
}

/// The verb mapped to its command; aliases name the same verb. The
/// argument text rides along on the parameterized verbs.
pub open spec fn verb_command(verb: Seq<char>, arg: Seq<char>) -> Option<SpecCommand> {
    if verb == "start"@ {
        Some(SpecCommand::Start)
    } else if verb == "help"@ {
        Some(SpecCommand::Help)
    } else if verb == "play"@ || verb == "p"@ {
        Some(SpecCommand::Play)
    } else if verb == "next"@ || verb == "n"@ {
        Some(SpecCommand::Next)
    } else if verb == "prev"@ {
        Some(SpecCommand::Prev)
    } else if verb == "current"@ || verb == "np"@ {
        Some(SpecCommand::Current)
    } else if verb == "queue"@ || verb == "q"@ {
        Some(SpecCommand::Queue)
    } else if verb == "addyt"@ || verb == "yt"@ {
        Some(SpecCommand::AddYt)
    } else if verb == "search"@ || verb == "s"@ {
        Some(SpecCommand::Search(arg))
    } else if verb == "addrand"@ || verb == "rand"@ {
        Some(SpecCommand::AddRand(arg))
    } else if verb == "addall"@ || verb == "all"@ {
        Some(SpecCommand::AddAll)
    } else if verb == "addfile"@ || verb == "file"@ {
        Some(SpecCommand::AddFile)
    } else if verb == "clear"@ {
        Some(SpecCommand::Clear)
    } else if verb == "shuffle"@ {
        Some(SpecCommand::Shuffle)
    } else if verb == "stats"@ {
        Some(SpecCommand::Stats)
    } else {
        None
    }
}

/// What a message text means to this bot: the text must start with a
/// slash; the first token up to a space is the verb, in it an optional
/// `@` mention that must name this bot; the argument is everything
/// after the first space.
pub open spec fn command_of(text: Seq<char>, bot: Seq<char>) -> Option<SpecCommand> {
    if text.len() == 0 || text[0] != '/' {
        None
    } else {
        let rest = text.skip(1);
        let sp = first_index_of(rest, ' ');
        let head = rest.take(sp);
        let arg = if sp < rest.len() {
            rest.skip(sp + 1)
        } else {
            Seq::empty()
        };
        let at = first_index_of(head, '@');
        if at < head.len() && head.skip(at + 1) != bot {
            None
        } else {
            verb_command(head.take(at), arg)
        }
    }
}

/// Parses a message text as a command for the bot called `bot`.
pub fn parse_command(text: &str, bot: &str) -> (r: Option<Command>)
    ensures
        match r {
            Some(cmd) => command_of(text@, bot@) == Some(cmd@),
            None => command_of(text@, bot@) is None,
        },
{
    let v = chars_of(text);
    let n: usize = v.len();
    if n == 0 {
        return None;
    }
    if v[0] != '/' {
        return None;
    }
    let ghost rest = text@.skip(1);

    // the verb token ends at the first space
    let mut k: usize = 1;
    while k < n && v[k] != ' '
        invariant
            n == v@.len(),
            1 <= k <= n,
            forall|j: int| 1 <= j < k ==> v@[j] != ' ',
        decreases n - k,
    {
        k = k + 1;
    }
    proof {
        assert forall|j: int| 0 <= j < k - 1 implies rest[j] != ' ' by {
            assert(rest[j] == v@[j + 1]);
        }
        assert(k < n ==> rest[k - 1] == ' ');
        lemma_first_index_is(rest, ' ', k - 1);
    }

    // an @ inside the token separates verb and bot mention
    let mut a: usize = 1;
    while a < k && v[a] != '@'
        invariant
            n == v@.len(),
            1 <= a <= k <= n,
            forall|j: int| 1 <= j < a ==> v@[j] != '@',
        decreases k - a,
    {
        a = a + 1;
    }
    let ghost head = rest.take(k - 1);
    proof {
        assert forall|j: int| 0 <= j < a - 1 implies head[j] != '@' by {
            assert(head[j] == v@[j + 1]);
        }
        assert(a < k ==> head[a - 1] == '@');
        lemma_first_index_is(head, '@', a - 1);
    }
    if a < k {
        // a mention for another bot is not ours
        if !range_eq_str(&v, a + 1, k, bot) {
            proof {
                assert(head.skip(a as int) =~= v@.subrange(a + 1 as int, k as int));
            }
            return None;
        }
        proof {
            assert(head.skip(a as int) =~= v@.subrange(a + 1 as int, k as int));
        }
    }
    let ghost verb = head.take(a - 1);
    proof {
        assert(verb =~= v@.subrange(1, a as int));
    }
    let arg: String = if k < n {
        let s = text.substring_char(k + 1, n);
        proof {
            assert(rest.skip(k as int) =~= text@.subrange(k + 1 as int, n as int));
        }
        s.to_owned()
    } else {
        String::new()
    };
    proof {
        if k < n {
            assert(arg@ == rest.skip((k - 1) + 1));
        } else {
            assert(arg@ =~= Seq::<char>::empty());
        }
    }

    if range_eq_str(&v, 1, a, "start") {
        Some(Command::Start)
    } else if range_eq_str(&v, 1, a, "help") {
        Some(Command::Help)
    } else if range_eq_str(&v, 1, a, "play") || range_eq_str(&v, 1, a, "p") {
        Some(Command::Play)
    } else if range_eq_str(&v, 1, a, "next") || range_eq_str(&v, 1, a, "n") {
        Some(Command::Next)
    } else if range_eq_str(&v, 1, a, "prev") {
        Some(Command::Prev)
    } else if range_eq_str(&v, 1, a, "current") || range_eq_str(&v, 1, a, "np") {
        Some(Command::Current)
    } else if range_eq_str(&v, 1, a, "queue") || range_eq_str(&v, 1, a, "q") {
        Some(Command::Queue)
    } else if range_eq_str(&v, 1, a, "addyt") || range_eq_str(&v, 1, a, "yt") {
        Some(Command::AddYt)
    } else if range_eq_str(&v, 1, a, "search") || range_eq_str(&v, 1, a, "s") {
        Some(Command::Search(arg))
    } else if range_eq_str(&v, 1, a, "addrand") || range_eq_str(&v, 1, a, "rand") {
        Some(Command::AddRand(arg))
    } else if range_eq_str(&v, 1, a, "addall") || range_eq_str(&v, 1, a, "all") {
        Some(Command::AddAll)
    } else if range_eq_str(&v, 1, a, "addfile") || range_eq_str(&v, 1, a, "file") {
        Some(Command::AddFile)
    } else if range_eq_str(&v, 1, a, "clear") {
        Some(Command::Clear)
    } else if range_eq_str(&v, 1, a, "shuffle") {
        Some(Command::Shuffle)
    } else if range_eq_str(&v, 1, a, "stats") {
        Some(Command::Stats)
    } else {
        None
    }
}

/// The command list shown for `start` and `help`: each verb with its
/// description.
pub fn help_text() -> (s: &'static str)
    ensures
        s@
            == "Those are the available commands:\n/start \u{2014} Start the bot\n/help \u{2014} Show this help\n/play \u{2014} Play/Pause music\n/next \u{2014} Switch to next track\n/prev \u{2014} Switch to previous track\n/current \u{2014} Show information about current song\n/queue \u{2014} Show songs in the queue\n/addyt \u{2014} Add a song from youtube\n/search \u{2014} Search in the db\n/addrand \u{2014} Add random songs\n/addall \u{2014} Add all songs to queue\n/addfile \u{2014} Add an audio file to queue\n/clear \u{2014} Clear the queue\n/shuffle \u{2014} Shuffle the queue\n/stats \u{2014} Show DB stats"@,
{
    "Those are the available commands:\n/start \u{2014} Start the bot\n/help \u{2014} Show this help\n/play \u{2014} Play/Pause music\n/next \u{2014} Switch to next track\n/prev \u{2014} Switch to previous track\n/current \u{2014} Show information about current song\n/queue \u{2014} Show songs in the queue\n/addyt \u{2014} Add a song from youtube\n/search \u{2014} Search in the db\n/addrand \u{2014} Add random songs\n/addall \u{2014} Add all songs to queue\n/addfile \u{2014} Add an audio file to queue\n/clear \u{2014} Clear the queue\n/shuffle \u{2014} Shuffle the queue\n/stats \u{2014} Show DB stats"
}

} // verus!
