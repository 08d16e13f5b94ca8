//! The line-based command interface: what a typed line asks for.
use vstd::prelude::*;
use crate::text::{decimal, push_decimal, string_of, string_from, parse_unsigned, ParseNumberError};
use crate::util::print_util::{trim_text, trimmed_chars};
use crate::dlib::song::SongInfo;

verus! {

/// What the command loop does after a command.
#[derive(Debug, Clone, Copy, PartialEq, Eq, Structural)]
pub enum CommandOutcome {
    Carryon,
    Exit,
}

/// The command interface's state: the id of the selected song or playlist.
#[derive(Debug, Clone, Copy, PartialEq, Eq, Structural)]
pub struct ProgramState {
    pub selected_id: Option<u32>,
}

impl ProgramState {
    /// Nothing selected.
    pub fn new() -> (s: Self)
        ensures
            s.selected_id is None,
    {
        ProgramState { selected_id: None }
    }
}

impl Default for ProgramState {
    fn default() -> (s: Self)
        ensures
            s.selected_id is None,
    {
        Self::new()
    }
}

/// A command of the main prompt.
#[derive(Debug, Clone, Copy, PartialEq, Eq, Structural)]
pub enum Command {
    Add,
    Select,
    Play,
    Remove,
    Update,
    List,
    Write,
    Help,
    Exit,
    Search,
    TogglePause,
    Status,
    Playlist,
    Invalid,
}

/// A command of the playlist prompt; any other line leaves playlist mode.
#[derive(Debug, Clone, Copy, PartialEq, Eq, Structural)]
pub enum PlaylistCommand {
    Play,
    Shuffle,
    Add,
    Update,
    Select,
    Remove,
    List,
    Help,
    AddSongs,
    Leave,
}

/// A line typed while adding songs to a playlist.
#[derive(Debug, Clone, Copy, PartialEq, Eq, Structural)]
pub enum EditInput {
    /// `list`: show the playlist's songs.
    List,
    /// `r<pos>` with a position inside the playlist: remove the song there.
    Remove(usize),
    /// `i<pos>`: insert a song (asked for next) at that position.
    Insert(usize),
    /// A song id to append.
    SongId(u32),
    /// Anything else: leave, with the reason the line is not a song id.
    Stop(ParseNumberError),
}

/// The command that the trimmed line `t` names.
pub open spec fn command_of(t: Seq<char>) -> Command {
    if t == "a"@ || t == "add"@ {
        Command::Add
    } else if t == "s"@ || t == "select"@ {
        Command::Select
    } else if t == "p"@ || t == "play"@ {
        Command::Play
    } else if t == "r"@ || t == "remove"@ {
        Command::Remove
    } else if t == "c"@ || t == "update"@ {
        Command::Update
    } else if t == "l"@ || t == "list"@ {
        Command::List
    } else if t == "w"@ || t == "write"@ {
        Command::Write
    } else if t == "h"@ || t == "?"@ || t == "help"@ {
        Command::Help
    } else if t == "e"@ || t == "exit"@ {
        Command::Exit
    } else if t == "ss"@ || t == "search"@ {
        Command::Search
    } else if t == "x"@ {
        Command::TogglePause
    } else if t == "status"@ {
        Command::Status
    } else if t == "playlist"@ || t == "pl"@ {
        Command::Playlist
    } else {
        Command::Invalid
    }
}

/// The playlist command that the trimmed line `t` names.
pub open spec fn playlist_command_of(t: Seq<char>) -> PlaylistCommand {
    if t == "p"@ || t == "play"@ {
        PlaylistCommand::Play
    } else if t == "c"@ || t == "shuffle"@ {
        PlaylistCommand::Shuffle
    } else if t == "a"@ || t == "add"@ {
        PlaylistCommand::Add
    } else if t == "u"@ || t == "update"@ {
        PlaylistCommand::Update
    } else if t == "s"@ || t == "select"@ {
        PlaylistCommand::Select
    } else if t == "r"@ || t == "remove"@ {
        PlaylistCommand::Remove
    } else if t == "l"@ || t == "list"@ {
        PlaylistCommand::List
    } else if t == "h"@ || t == "?"@ || t == "help"@ {
        PlaylistCommand::Help
    } else if t == "as"@ || t == "addsongs"@ {
        PlaylistCommand::AddSongs
    } else {
        PlaylistCommand::Leave
    }
}

/// What a line typed while adding songs asks for, for a playlist of
/// `count` songs; `t` is the line without surrounding white space.
pub open spec fn edit_input_of(t: Seq<char>, count: nat) -> EditInput {
    let pos = parse_unsigned(t.drop_first(), usize::MAX as nat);
    if t == "list"@ {
        EditInput::List
    } else if t.len() > 0 && t[0] == 'r' && pos is Ok && pos->Ok_0 < count {
        EditInput::Remove(pos->Ok_0 as usize)
    } else if t.len() > 0 && t[0] == 'i' && pos is Ok {
        EditInput::Insert(pos->Ok_0 as usize)
    } else {
        match parse_unsigned(t, u32::MAX as nat) {
            Ok(id) => EditInput::SongId(id as u32),
            Err(e) => EditInput::Stop(e),
        }
    }
}

/// The characters of `v` from index `start` on.
fn chars_from(v: &Vec<char>, start: usize) -> (r: Vec<char>)
    requires
        start <= v.len(),
    ensures
        r@ == v@.skip(start as int),
{
    let mut r: Vec<char> = Vec::new();
    let mut i = start;
    while i < v.len()
        invariant
            start <= i <= v.len(),
            r@ == v@.subrange(start as int, i as int),
        decreases v.len() - i,
    {
        r.push(v[i]);
        i = i + 1;
        assert(r@ =~= v@.subrange(start as int, i as int));
    }
    assert(r@ =~= v@.skip(start as int));
    r
}

/// What `input`, typed while adding songs to a playlist of `count` songs,
/// asks for: `list`; `r<pos>` with a position inside the playlist; `i<pos>`;
/// or else a song id, or the reason it is none.
pub fn classify_edit_input(input: &str, count: usize) -> (e: EditInput)
    ensures
        e == edit_input_of(trim_text(input@), count as nat),
{
    let t = trimmed_chars(input);
    if chars_equal(&t, "list") {
        return EditInput::List;
    }
    if t.len() > 0 && (t[0] == 'r' || t[0] == 'i') {
        let rest = string_of(&chars_from(&t, 1));
        assert(rest@ =~= t@.drop_first());
        let pos = crate::text::parse_decimal(rest.as_str(), usize::MAX as u64);
        if let Ok(p) = pos {
            if t[0] == 'i' {
                return EditInput::Insert(p as usize);
            } else if (p as usize) < count {
                return EditInput::Remove(p as usize);
            }
        }
    }
    let whole = string_of(&t);
    match crate::text::parse_decimal(whole.as_str(), u32::MAX as u64) {
        Ok(id) => EditInput::SongId(id as u32),
        Err(e) => EditInput::Stop(e),
    }
}

/// Law: each command of the main prompt is named by its short form and by
/// its long form, as the help lists them: `(a)dd`, `(s)elect`, `(p)lay`,
/// `(r)emove`, `(c)hange` (`update`), `(l)ist`, `(w)rite`, `(h)elp` (or
/// `?`), `(e)xit`, `(ss)earch`, `(pl)aylist`; `x` toggles the pause and
/// `status` shows what plays.
pub proof fn law_commands_have_short_forms()
    ensures
        command_of("a"@) == Command::Add && command_of("add"@) == Command::Add,
        command_of("s"@) == Command::Select && command_of("select"@) == Command::Select,
        command_of("p"@) == Command::Play && command_of("play"@) == Command::Play,
        command_of("r"@) == Command::Remove && command_of("remove"@) == Command::Remove,
        command_of("c"@) == Command::Update && command_of("update"@) == Command::Update,
        command_of("l"@) == Command::List && command_of("list"@) == Command::List,
        command_of("w"@) == Command::Write && command_of("write"@) == Command::Write,
        command_of("h"@) == Command::Help && command_of("help"@) == Command::Help,
        command_of("?"@) == Command::Help && command_of("help"@) == Command::Help,
        command_of("e"@) == Command::Exit && command_of("exit"@) == Command::Exit,
        command_of("ss"@) == Command::Search && command_of("search"@) == Command::Search,
        command_of("pl"@) == Command::Playlist && command_of("playlist"@) == Command::Playlist,
        command_of("x"@) == Command::TogglePause,
        command_of("status"@) == Command::Status,
{
    assert(command_of("a"@) == Command::Add) by {
        reveal_strlit("a");
        reveal_strlit("add");
        assert("a"@ != "add"@) by { assert("a"@.len() != "add"@.len()); }
    }
    assert(command_of("add"@) == Command::Add) by {
        reveal_strlit("a");
        reveal_strlit("add");
        assert("add"@ != "a"@) by { assert("add"@.len() != "a"@.len()); }
    }
    assert(command_of("s"@) == Command::Select) by {
        reveal_strlit("a");
        reveal_strlit("add");
        reveal_strlit("s");
        reveal_strlit("select");
        assert("s"@ != "a"@) by { assert("s"@[0] != "a"@[0]); }
        assert("s"@ != "add"@) by { assert("s"@.len() != "add"@.len()); }
        assert("s"@ != "select"@) by { assert("s"@.len() != "select"@.len()); }
    }
    assert(command_of("select"@) == Command::Select) by {
        reveal_strlit("a");
        reveal_strlit("add");
        reveal_strlit("s");
        reveal_strlit("select");
        assert("select"@ != "a"@) by { assert("select"@.len() != "a"@.len()); }
        assert("select"@ != "add"@) by { assert("select"@.len() != "add"@.len()); }
        assert("select"@ != "s"@) by { assert("select"@.len() != "s"@.len()); }
    }
    assert(command_of("p"@) == Command::Play) by {
        reveal_strlit("a");
        reveal_strlit("add");
        reveal_strlit("s");
        reveal_strlit("select");
        reveal_strlit("p");
        reveal_strlit("play");
        assert("p"@ != "a"@) by { assert("p"@[0] != "a"@[0]); }
        assert("p"@ != "add"@) by { assert("p"@.len() != "add"@.len()); }
        assert("p"@ != "s"@) by { assert("p"@[0] != "s"@[0]); }
        assert("p"@ != "select"@) by { assert("p"@.len() != "select"@.len()); }
        assert("p"@ != "play"@) by { assert("p"@.len() != "play"@.len()); }
    }
    assert(command_of("play"@) == Command::Play) by {
        reveal_strlit("a");
        reveal_strlit("add");
        reveal_strlit("s");
        reveal_strlit("select");
        reveal_strlit("p");
        reveal_strlit("play");
        assert("play"@ != "a"@) by { assert("play"@.len() != "a"@.len()); }
        assert("play"@ != "add"@) by { assert("play"@.len() != "add"@.len()); }
        assert("play"@ != "s"@) by { assert("play"@.len() != "s"@.len()); }
        assert("play"@ != "select"@) by { assert("play"@.len() != "select"@.len()); }
        assert("play"@ != "p"@) by { assert("play"@.len() != "p"@.len()); }
    }
    assert(command_of("r"@) == Command::Remove) by {
        reveal_strlit("a");
        reveal_strlit("add");
        reveal_strlit("s");
        reveal_strlit("select");
        reveal_strlit("p");
        reveal_strlit("play");
        reveal_strlit("r");
        reveal_strlit("remove");
        assert("r"@ != "a"@) by { assert("r"@[0] != "a"@[0]); }
        assert("r"@ != "add"@) by { assert("r"@.len() != "add"@.len()); }
        assert("r"@ != "s"@) by { assert("r"@[0] != "s"@[0]); }
        assert("r"@ != "select"@) by { assert("r"@.len() != "select"@.len()); }
        assert("r"@ != "p"@) by { assert("r"@[0] != "p"@[0]); }
        assert("r"@ != "play"@) by { assert("r"@.len() != "play"@.len()); }
        assert("r"@ != "remove"@) by { assert("r"@.len() != "remove"@.len()); }
    }
    assert(command_of("remove"@) == Command::Remove) by {
        reveal_strlit("a");
        reveal_strlit("add");
        reveal_strlit("s");
        reveal_strlit("select");
        reveal_strlit("p");
        reveal_strlit("play");
        reveal_strlit("r");
        reveal_strlit("remove");
        assert("remove"@ != "a"@) by { assert("remove"@.len() != "a"@.len()); }
        assert("remove"@ != "add"@) by { assert("remove"@.len() != "add"@.len()); }
        assert("remove"@ != "s"@) by { assert("remove"@.len() != "s"@.len()); }
        assert("remove"@ != "select"@) by { assert("remove"@[0] != "select"@[0]); }
        assert("remove"@ != "p"@) by { assert("remove"@.len() != "p"@.len()); }
        assert("remove"@ != "play"@) by { assert("remove"@.len() != "play"@.len()); }
        assert("remove"@ != "r"@) by { assert("remove"@.len() != "r"@.len()); }
    }
    assert(command_of("c"@) == Command::Update) by {
        reveal_strlit("a");
        reveal_strlit("add");
        reveal_strlit("s");
        reveal_strlit("select");
        reveal_strlit("p");
        reveal_strlit("play");
        reveal_strlit("r");
        reveal_strlit("remove");
        reveal_strlit("c");
        reveal_strlit("update");
        assert("c"@ != "a"@) by { assert("c"@[0] != "a"@[0]); }
        assert("c"@ != "add"@) by { assert("c"@.len() != "add"@.len()); }
        assert("c"@ != "s"@) by { assert("c"@[0] != "s"@[0]); }
        assert("c"@ != "select"@) by { assert("c"@.len() != "select"@.len()); }
        assert("c"@ != "p"@) by { assert("c"@[0] != "p"@[0]); }
        assert("c"@ != "play"@) by { assert("c"@.len() != "play"@.len()); }
        assert("c"@ != "r"@) by { assert("c"@[0] != "r"@[0]); }
        assert("c"@ != "remove"@) by { assert("c"@.len() != "remove"@.len()); }
        assert("c"@ != "update"@) by { assert("c"@.len() != "update"@.len()); }
    }
    assert(command_of("update"@) == Command::Update) by {
        reveal_strlit("a");
        reveal_strlit("add");
        reveal_strlit("s");
        reveal_strlit("select");
        reveal_strlit("p");
        reveal_strlit("play");
        reveal_strlit("r");
        reveal_strlit("remove");
        reveal_strlit("c");
        reveal_strlit("update");
        assert("update"@ != "a"@) by { assert("update"@.len() != "a"@.len()); }
        assert("update"@ != "add"@) by { assert("update"@.len() != "add"@.len()); }
        assert("update"@ != "s"@) by { assert("update"@.len() != "s"@.len()); }
        assert("update"@ != "select"@) by { assert("update"@[0] != "select"@[0]); }
        assert("update"@ != "p"@) by { assert("update"@.len() != "p"@.len()); }
        assert("update"@ != "play"@) by { assert("update"@.len() != "play"@.len()); }
        assert("update"@ != "r"@) by { assert("update"@.len() != "r"@.len()); }
        assert("update"@ != "remove"@) by { assert("update"@[0] != "remove"@[0]); }
        assert("update"@ != "c"@) by { assert("update"@.len() != "c"@.len()); }
    }
    assert(command_of("l"@) == Command::List) by {
        reveal_strlit("a");
        reveal_strlit("add");
        reveal_strlit("s");
        reveal_strlit("select");
        reveal_strlit("p");
        reveal_strlit("play");
        reveal_strlit("r");
        reveal_strlit("remove");
        reveal_strlit("c");
        reveal_strlit("update");
        reveal_strlit("l");
        reveal_strlit("list");
        assert("l"@ != "a"@) by { assert("l"@[0] != "a"@[0]); }
        assert("l"@ != "add"@) by { assert("l"@.len() != "add"@.len()); }
        assert("l"@ != "s"@) by { assert("l"@[0] != "s"@[0]); }
        assert("l"@ != "select"@) by { assert("l"@.len() != "select"@.len()); }
        assert("l"@ != "p"@) by { assert("l"@[0] != "p"@[0]); }
        assert("l"@ != "play"@) by { assert("l"@.len() != "play"@.len()); }
        assert("l"@ != "r"@) by { assert("l"@[0] != "r"@[0]); }
        assert("l"@ != "remove"@) by { assert("l"@.len() != "remove"@.len()); }
        assert("l"@ != "c"@) by { assert("l"@[0] != "c"@[0]); }
        assert("l"@ != "update"@) by { assert("l"@.len() != "update"@.len()); }
        assert("l"@ != "list"@) by { assert("l"@.len() != "list"@.len()); }
    }
    assert(command_of("list"@) == Command::List) by {
        reveal_strlit("a");
        reveal_strlit("add");
        reveal_strlit("s");
        reveal_strlit("select");
        reveal_strlit("p");
        reveal_strlit("play");
        reveal_strlit("r");
        reveal_strlit("remove");
        reveal_strlit("c");
        reveal_strlit("update");
        reveal_strlit("l");
        reveal_strlit("list");
        assert("list"@ != "a"@) by { assert("list"@.len() != "a"@.len()); }
        assert("list"@ != "add"@) by { assert("list"@.len() != "add"@.len()); }
        assert("list"@ != "s"@) by { assert("list"@.len() != "s"@.len()); }
        assert("list"@ != "select"@) by { assert("list"@.len() != "select"@.len()); }
        assert("list"@ != "p"@) by { assert("list"@.len() != "p"@.len()); }
        assert("list"@ != "play"@) by { assert("list"@[0] != "play"@[0]); }
        assert("list"@ != "r"@) by { assert("list"@.len() != "r"@.len()); }
        assert("list"@ != "remove"@) by { assert("list"@.len() != "remove"@.len()); }
        assert("list"@ != "c"@) by { assert("list"@.len() != "c"@.len()); }
        assert("list"@ != "update"@) by { assert("list"@.len() != "update"@.len()); }
        assert("list"@ != "l"@) by { assert("list"@.len() != "l"@.len()); }
    }
    assert(command_of("w"@) == Command::Write) by {
        reveal_strlit("a");
        reveal_strlit("add");
        reveal_strlit("s");
        reveal_strlit("select");
        reveal_strlit("p");
        reveal_strlit("play");
        reveal_strlit("r");
        reveal_strlit("remove");
        reveal_strlit("c");
        reveal_strlit("update");
        reveal_strlit("l");
        reveal_strlit("list");
        reveal_strlit("w");
        reveal_strlit("write");
        assert("w"@ != "a"@) by { assert("w"@[0] != "a"@[0]); }
        assert("w"@ != "add"@) by { assert("w"@.len() != "add"@.len()); }
        assert("w"@ != "s"@) by { assert("w"@[0] != "s"@[0]); }
        assert("w"@ != "select"@) by { assert("w"@.len() != "select"@.len()); }
        assert("w"@ != "p"@) by { assert("w"@[0] != "p"@[0]); }
        assert("w"@ != "play"@) by { assert("w"@.len() != "play"@.len()); }
        assert("w"@ != "r"@) by { assert("w"@[0] != "r"@[0]); }
        assert("w"@ != "remove"@) by { assert("w"@.len() != "remove"@.len()); }
        assert("w"@ != "c"@) by { assert("w"@[0] != "c"@[0]); }
        assert("w"@ != "update"@) by { assert("w"@.len() != "update"@.len()); }
        assert("w"@ != "l"@) by { assert("w"@[0] != "l"@[0]); }
        assert("w"@ != "list"@) by { assert("w"@.len() != "list"@.len()); }
        assert("w"@ != "write"@) by { assert("w"@.len() != "write"@.len()); }
    }
    assert(command_of("write"@) == Command::Write) by {
        reveal_strlit("a");
        reveal_strlit("add");
        reveal_strlit("s");
        reveal_strlit("select");
        reveal_strlit("p");
        reveal_strlit("play");
        reveal_strlit("r");
        reveal_strlit("remove");
        reveal_strlit("c");
        reveal_strlit("update");
        reveal_strlit("l");
        reveal_strlit("list");
        reveal_strlit("w");
        reveal_strlit("write");
        assert("write"@ != "a"@) by { assert("write"@.len() != "a"@.len()); }
        assert("write"@ != "add"@) by { assert("write"@.len() != "add"@.len()); }
        assert("write"@ != "s"@) by { assert("write"@.len() != "s"@.len()); }
        assert("write"@ != "select"@) by { assert("write"@.len() != "select"@.len()); }
        assert("write"@ != "p"@) by { assert("write"@.len() != "p"@.len()); }
        assert("write"@ != "play"@) by { assert("write"@.len() != "play"@.len()); }
        assert("write"@ != "r"@) by { assert("write"@.len() != "r"@.len()); }
        assert("write"@ != "remove"@) by { assert("write"@.len() != "remove"@.len()); }
        assert("write"@ != "c"@) by { assert("write"@.len() != "c"@.len()); }
        assert("write"@ != "update"@) by { assert("write"@.len() != "update"@.len()); }
        assert("write"@ != "l"@) by { assert("write"@.len() != "l"@.len()); }
        assert("write"@ != "list"@) by { assert("write"@.len() != "list"@.len()); }
        assert("write"@ != "w"@) by { assert("write"@.len() != "w"@.len()); }
    }
    assert(command_of("h"@) == Command::Help) by {
        reveal_strlit("a");
        reveal_strlit("add");
        reveal_strlit("s");
        reveal_strlit("select");
        reveal_strlit("p");
        reveal_strlit("play");
        reveal_strlit("r");
        reveal_strlit("remove");
        reveal_strlit("c");
        reveal_strlit("update");
        reveal_strlit("l");
        reveal_strlit("list");
        reveal_strlit("w");
        reveal_strlit("write");
        reveal_strlit("h");
        reveal_strlit("?");
        reveal_strlit("help");
        assert("h"@ != "a"@) by { assert("h"@[0] != "a"@[0]); }
        assert("h"@ != "add"@) by { assert("h"@.len() != "add"@.len()); }
        assert("h"@ != "s"@) by { assert("h"@[0] != "s"@[0]); }
        assert("h"@ != "select"@) by { assert("h"@.len() != "select"@.len()); }
        assert("h"@ != "p"@) by { assert("h"@[0] != "p"@[0]); }
        assert("h"@ != "play"@) by { assert("h"@.len() != "play"@.len()); }
        assert("h"@ != "r"@) by { assert("h"@[0] != "r"@[0]); }
        assert("h"@ != "remove"@) by { assert("h"@.len() != "remove"@.len()); }
        assert("h"@ != "c"@) by { assert("h"@[0] != "c"@[0]); }
        assert("h"@ != "update"@) by { assert("h"@.len() != "update"@.len()); }
        assert("h"@ != "l"@) by { assert("h"@[0] != "l"@[0]); }
        assert("h"@ != "list"@) by { assert("h"@.len() != "list"@.len()); }
        assert("h"@ != "w"@) by { assert("h"@[0] != "w"@[0]); }
        assert("h"@ != "write"@) by { assert("h"@.len() != "write"@.len()); }
        assert("h"@ != "?"@) by { assert("h"@[0] != "?"@[0]); }
        assert("h"@ != "help"@) by { assert("h"@.len() != "help"@.len()); }
    }
    assert(command_of("?"@) == Command::Help) by {
        reveal_strlit("a");
        reveal_strlit("add");
        reveal_strlit("s");
        reveal_strlit("select");
        reveal_strlit("p");
        reveal_strlit("play");
        reveal_strlit("r");
        reveal_strlit("remove");
        reveal_strlit("c");
        reveal_strlit("update");
        reveal_strlit("l");
        reveal_strlit("list");
        reveal_strlit("w");
        reveal_strlit("write");
        reveal_strlit("h");
        reveal_strlit("?");
        reveal_strlit("help");
        assert("?"@ != "a"@) by { assert("?"@[0] != "a"@[0]); }
        assert("?"@ != "add"@) by { assert("?"@.len() != "add"@.len()); }
        assert("?"@ != "s"@) by { assert("?"@[0] != "s"@[0]); }
        assert("?"@ != "select"@) by { assert("?"@.len() != "select"@.len()); }
        assert("?"@ != "p"@) by { assert("?"@[0] != "p"@[0]); }
        assert("?"@ != "play"@) by { assert("?"@.len() != "play"@.len()); }
        assert("?"@ != "r"@) by { assert("?"@[0] != "r"@[0]); }
        assert("?"@ != "remove"@) by { assert("?"@.len() != "remove"@.len()); }
        assert("?"@ != "c"@) by { assert("?"@[0] != "c"@[0]); }
        assert("?"@ != "update"@) by { assert("?"@.len() != "update"@.len()); }
        assert("?"@ != "l"@) by { assert("?"@[0] != "l"@[0]); }
        assert("?"@ != "list"@) by { assert("?"@.len() != "list"@.len()); }
        assert("?"@ != "w"@) by { assert("?"@[0] != "w"@[0]); }
        assert("?"@ != "write"@) by { assert("?"@.len() != "write"@.len()); }
        assert("?"@ != "h"@) by { assert("?"@[0] != "h"@[0]); }
        assert("?"@ != "help"@) by { assert("?"@.len() != "help"@.len()); }
    }
    assert(command_of("help"@) == Command::Help) by {
        reveal_strlit("a");
        reveal_strlit("add");
        reveal_strlit("s");
        reveal_strlit("select");
        reveal_strlit("p");
        reveal_strlit("play");
        reveal_strlit("r");
        reveal_strlit("remove");
        reveal_strlit("c");
        reveal_strlit("update");
        reveal_strlit("l");
        reveal_strlit("list");
        reveal_strlit("w");
        reveal_strlit("write");
        reveal_strlit("h");
        reveal_strlit("?");
        reveal_strlit("help");
        assert("help"@ != "a"@) by { assert("help"@.len() != "a"@.len()); }
        assert("help"@ != "add"@) by { assert("help"@.len() != "add"@.len()); }
        assert("help"@ != "s"@) by { assert("help"@.len() != "s"@.len()); }
        assert("help"@ != "select"@) by { assert("help"@.len() != "select"@.len()); }
        assert("help"@ != "p"@) by { assert("help"@.len() != "p"@.len()); }
        assert("help"@ != "play"@) by { assert("help"@[0] != "play"@[0]); }
        assert("help"@ != "r"@) by { assert("help"@.len() != "r"@.len()); }
        assert("help"@ != "remove"@) by { assert("help"@.len() != "remove"@.len()); }
        assert("help"@ != "c"@) by { assert("help"@.len() != "c"@.len()); }
        assert("help"@ != "update"@) by { assert("help"@.len() != "update"@.len()); }
        assert("help"@ != "l"@) by { assert("help"@.len() != "l"@.len()); }
        assert("help"@ != "list"@) by { assert("help"@[0] != "list"@[0]); }
        assert("help"@ != "w"@) by { assert("help"@.len() != "w"@.len()); }
        assert("help"@ != "write"@) by { assert("help"@.len() != "write"@.len()); }
        assert("help"@ != "h"@) by { assert("help"@.len() != "h"@.len()); }
        assert("help"@ != "?"@) by { assert("help"@.len() != "?"@.len()); }
    }
    assert(command_of("e"@) == Command::Exit) by {
        reveal_strlit("a");
        reveal_strlit("add");
        reveal_strlit("s");
        reveal_strlit("select");
        reveal_strlit("p");
        reveal_strlit("play");
        reveal_strlit("r");
        reveal_strlit("remove");
        reveal_strlit("c");
        reveal_strlit("update");
        reveal_strlit("l");
        reveal_strlit("list");
        reveal_strlit("w");
        reveal_strlit("write");
        reveal_strlit("h");
        reveal_strlit("?");
        reveal_strlit("help");
        reveal_strlit("e");
        reveal_strlit("exit");
        assert("e"@ != "a"@) by { assert("e"@[0] != "a"@[0]); }
        assert("e"@ != "add"@) by { assert("e"@.len() != "add"@.len()); }
        assert("e"@ != "s"@) by { assert("e"@[0] != "s"@[0]); }
        assert("e"@ != "select"@) by { assert("e"@.len() != "select"@.len()); }
        assert("e"@ != "p"@) by { assert("e"@[0] != "p"@[0]); }
        assert("e"@ != "play"@) by { assert("e"@.len() != "play"@.len()); }
        assert("e"@ != "r"@) by { assert("e"@[0] != "r"@[0]); }
        assert("e"@ != "remove"@) by { assert("e"@.len() != "remove"@.len()); }
        assert("e"@ != "c"@) by { assert("e"@[0] != "c"@[0]); }
        assert("e"@ != "update"@) by { assert("e"@.len() != "update"@.len()); }
        assert("e"@ != "l"@) by { assert("e"@[0] != "l"@[0]); }
        assert("e"@ != "list"@) by { assert("e"@.len() != "list"@.len()); }
        assert("e"@ != "w"@) by { assert("e"@[0] != "w"@[0]); }
        assert("e"@ != "write"@) by { assert("e"@.len() != "write"@.len()); }
        assert("e"@ != "h"@) by { assert("e"@[0] != "h"@[0]); }
        assert("e"@ != "?"@) by { assert("e"@[0] != "?"@[0]); }
        assert("e"@ != "help"@) by { assert("e"@.len() != "help"@.len()); }
        assert("e"@ != "exit"@) by { assert("e"@.len() != "exit"@.len()); }
    }
    assert(command_of("exit"@) == Command::Exit) by {
        reveal_strlit("a");
        reveal_strlit("add");
        reveal_strlit("s");
        reveal_strlit("select");
        reveal_strlit("p");
        reveal_strlit("play");
        reveal_strlit("r");
        reveal_strlit("remove");
        reveal_strlit("c");
        reveal_strlit("update");
        reveal_strlit("l");
        reveal_strlit("list");
        reveal_strlit("w");
        reveal_strlit("write");
        reveal_strlit("h");
        reveal_strlit("?");
        reveal_strlit("help");
        reveal_strlit("e");
        reveal_strlit("exit");
        assert("exit"@ != "a"@) by { assert("exit"@.len() != "a"@.len()); }
        assert("exit"@ != "add"@) by { assert("exit"@.len() != "add"@.len()); }
        assert("exit"@ != "s"@) by { assert("exit"@.len() != "s"@.len()); }
        assert("exit"@ != "select"@) by { assert("exit"@.len() != "select"@.len()); }
        assert("exit"@ != "p"@) by { assert("exit"@.len() != "p"@.len()); }
        assert("exit"@ != "play"@) by { assert("exit"@[0] != "play"@[0]); }
        assert("exit"@ != "r"@) by { assert("exit"@.len() != "r"@.len()); }
        assert("exit"@ != "remove"@) by { assert("exit"@.len() != "remove"@.len()); }
        assert("exit"@ != "c"@) by { assert("exit"@.len() != "c"@.len()); }
        assert("exit"@ != "update"@) by { assert("exit"@.len() != "update"@.len()); }
        assert("exit"@ != "l"@) by { assert("exit"@.len() != "l"@.len()); }
        assert("exit"@ != "list"@) by { assert("exit"@[0] != "list"@[0]); }
        assert("exit"@ != "w"@) by { assert("exit"@.len() != "w"@.len()); }
        assert("exit"@ != "write"@) by { assert("exit"@.len() != "write"@.len()); }
        assert("exit"@ != "h"@) by { assert("exit"@.len() != "h"@.len()); }
        assert("exit"@ != "?"@) by { assert("exit"@.len() != "?"@.len()); }
        assert("exit"@ != "help"@) by { assert("exit"@[0] != "help"@[0]); }
        assert("exit"@ != "e"@) by { assert("exit"@.len() != "e"@.len()); }
    }
    assert(command_of("ss"@) == Command::Search) by {
        reveal_strlit("a");
        reveal_strlit("add");
        reveal_strlit("s");
        reveal_strlit("select");
        reveal_strlit("p");
        reveal_strlit("play");
        reveal_strlit("r");
        reveal_strlit("remove");
        reveal_strlit("c");
        reveal_strlit("update");
        reveal_strlit("l");
        reveal_strlit("list");
        reveal_strlit("w");
        reveal_strlit("write");
        reveal_strlit("h");
        reveal_strlit("?");
        reveal_strlit("help");
        reveal_strlit("e");
        reveal_strlit("exit");
        reveal_strlit("ss");
        reveal_strlit("search");
        assert("ss"@ != "a"@) by { assert("ss"@.len() != "a"@.len()); }
        assert("ss"@ != "add"@) by { assert("ss"@.len() != "add"@.len()); }
        assert("ss"@ != "s"@) by { assert("ss"@.len() != "s"@.len()); }
        assert("ss"@ != "select"@) by { assert("ss"@.len() != "select"@.len()); }
        assert("ss"@ != "p"@) by { assert("ss"@.len() != "p"@.len()); }
        assert("ss"@ != "play"@) by { assert("ss"@.len() != "play"@.len()); }
        assert("ss"@ != "r"@) by { assert("ss"@.len() != "r"@.len()); }
        assert("ss"@ != "remove"@) by { assert("ss"@.len() != "remove"@.len()); }
        assert("ss"@ != "c"@) by { assert("ss"@.len() != "c"@.len()); }
        assert("ss"@ != "update"@) by { assert("ss"@.len() != "update"@.len()); }
        assert("ss"@ != "l"@) by { assert("ss"@.len() != "l"@.len()); }
        assert("ss"@ != "list"@) by { assert("ss"@.len() != "list"@.len()); }
        assert("ss"@ != "w"@) by { assert("ss"@.len() != "w"@.len()); }
        assert("ss"@ != "write"@) by { assert("ss"@.len() != "write"@.len()); }
        assert("ss"@ != "h"@) by { assert("ss"@.len() != "h"@.len()); }
        assert("ss"@ != "?"@) by { assert("ss"@.len() != "?"@.len()); }
        assert("ss"@ != "help"@) by { assert("ss"@.len() != "help"@.len()); }
        assert("ss"@ != "e"@) by { assert("ss"@.len() != "e"@.len()); }
        assert("ss"@ != "exit"@) by { assert("ss"@.len() != "exit"@.len()); }
        assert("ss"@ != "search"@) by { assert("ss"@.len() != "search"@.len()); }
    }
    assert(command_of("search"@) == Command::Search) by {
        reveal_strlit("a");
        reveal_strlit("add");
        reveal_strlit("s");
        reveal_strlit("select");
        reveal_strlit("p");
        reveal_strlit("play");
        reveal_strlit("r");
        reveal_strlit("remove");
        reveal_strlit("c");
        reveal_strlit("update");
        reveal_strlit("l");
        reveal_strlit("list");
        reveal_strlit("w");
        reveal_strlit("write");
        reveal_strlit("h");
        reveal_strlit("?");
        reveal_strlit("help");
        reveal_strlit("e");
        reveal_strlit("exit");
        reveal_strlit("ss");
        reveal_strlit("search");
        assert("search"@ != "a"@) by { assert("search"@.len() != "a"@.len()); }
        assert("search"@ != "add"@) by { assert("search"@.len() != "add"@.len()); }
        assert("search"@ != "s"@) by { assert("search"@.len() != "s"@.len()); }
        assert("search"@ != "select"@) by { assert("search"@[2] != "select"@[2]); }
        assert("search"@ != "p"@) by { assert("search"@.len() != "p"@.len()); }
        assert("search"@ != "play"@) by { assert("search"@.len() != "play"@.len()); }
        assert("search"@ != "r"@) by { assert("search"@.len() != "r"@.len()); }
        assert("search"@ != "remove"@) by { assert("search"@[0] != "remove"@[0]); }
        assert("search"@ != "c"@) by { assert("search"@.len() != "c"@.len()); }
        assert("search"@ != "update"@) by { assert("search"@[0] != "update"@[0]); }
        assert("search"@ != "l"@) by { assert("search"@.len() != "l"@.len()); }
        assert("search"@ != "list"@) by { assert("search"@.len() != "list"@.len()); }
        assert("search"@ != "w"@) by { assert("search"@.len() != "w"@.len()); }
        assert("search"@ != "write"@) by { assert("search"@.len() != "write"@.len()); }
        assert("search"@ != "h"@) by { assert("search"@.len() != "h"@.len()); }
        assert("search"@ != "?"@) by { assert("search"@.len() != "?"@.len()); }
        assert("search"@ != "help"@) by { assert("search"@.len() != "help"@.len()); }
        assert("search"@ != "e"@) by { assert("search"@.len() != "e"@.len()); }
        assert("search"@ != "exit"@) by { assert("search"@.len() != "exit"@.len()); }
        assert("search"@ != "ss"@) by { assert("search"@.len() != "ss"@.len()); }
    }
    assert(command_of("x"@) == Command::TogglePause) by {
        reveal_strlit("a");
        reveal_strlit("add");
        reveal_strlit("s");
        reveal_strlit("select");
        reveal_strlit("p");
        reveal_strlit("play");
        reveal_strlit("r");
        reveal_strlit("remove");
        reveal_strlit("c");
        reveal_strlit("update");
        reveal_strlit("l");
        reveal_strlit("list");
        reveal_strlit("w");
        reveal_strlit("write");
        reveal_strlit("h");
        reveal_strlit("?");
        reveal_strlit("help");
        reveal_strlit("e");
        reveal_strlit("exit");
        reveal_strlit("ss");
        reveal_strlit("search");
        reveal_strlit("x");
        assert("x"@ != "a"@) by { assert("x"@[0] != "a"@[0]); }
        assert("x"@ != "add"@) by { assert("x"@.len() != "add"@.len()); }
        assert("x"@ != "s"@) by { assert("x"@[0] != "s"@[0]); }
        assert("x"@ != "select"@) by { assert("x"@.len() != "select"@.len()); }
        assert("x"@ != "p"@) by { assert("x"@[0] != "p"@[0]); }
        assert("x"@ != "play"@) by { assert("x"@.len() != "play"@.len()); }
        assert("x"@ != "r"@) by { assert("x"@[0] != "r"@[0]); }
        assert("x"@ != "remove"@) by { assert("x"@.len() != "remove"@.len()); }
        assert("x"@ != "c"@) by { assert("x"@[0] != "c"@[0]); }
        assert("x"@ != "update"@) by { assert("x"@.len() != "update"@.len()); }
        assert("x"@ != "l"@) by { assert("x"@[0] != "l"@[0]); }
        assert("x"@ != "list"@) by { assert("x"@.len() != "list"@.len()); }
        assert("x"@ != "w"@) by { assert("x"@[0] != "w"@[0]); }
        assert("x"@ != "write"@) by { assert("x"@.len() != "write"@.len()); }
        assert("x"@ != "h"@) by { assert("x"@[0] != "h"@[0]); }
        assert("x"@ != "?"@) by { assert("x"@[0] != "?"@[0]); }
        assert("x"@ != "help"@) by { assert("x"@.len() != "help"@.len()); }
        assert("x"@ != "e"@) by { assert("x"@[0] != "e"@[0]); }
        assert("x"@ != "exit"@) by { assert("x"@.len() != "exit"@.len()); }
        assert("x"@ != "ss"@) by { assert("x"@.len() != "ss"@.len()); }
        assert("x"@ != "search"@) by { assert("x"@.len() != "search"@.len()); }
    }
    assert(command_of("status"@) == Command::Status) by {
        reveal_strlit("a");
        reveal_strlit("add");
        reveal_strlit("s");
        reveal_strlit("select");
        reveal_strlit("p");
        reveal_strlit("play");
        reveal_strlit("r");
        reveal_strlit("remove");
        reveal_strlit("c");
        reveal_strlit("update");
        reveal_strlit("l");
        reveal_strlit("list");
        reveal_strlit("w");
        reveal_strlit("write");
        reveal_strlit("h");
        reveal_strlit("?");
        reveal_strlit("help");
        reveal_strlit("e");
        reveal_strlit("exit");
        reveal_strlit("ss");
        reveal_strlit("search");
        reveal_strlit("x");
        reveal_strlit("status");
        assert("status"@ != "a"@) by { assert("status"@.len() != "a"@.len()); }
        assert("status"@ != "add"@) by { assert("status"@.len() != "add"@.len()); }
        assert("status"@ != "s"@) by { assert("status"@.len() != "s"@.len()); }
        assert("status"@ != "select"@) by { assert("status"@[1] != "select"@[1]); }
        assert("status"@ != "p"@) by { assert("status"@.len() != "p"@.len()); }
        assert("status"@ != "play"@) by { assert("status"@.len() != "play"@.len()); }
        assert("status"@ != "r"@) by { assert("status"@.len() != "r"@.len()); }
        assert("status"@ != "remove"@) by { assert("status"@[0] != "remove"@[0]); }
        assert("status"@ != "c"@) by { assert("status"@.len() != "c"@.len()); }
        assert("status"@ != "update"@) by { assert("status"@[0] != "update"@[0]); }
        assert("status"@ != "l"@) by { assert("status"@.len() != "l"@.len()); }
        assert("status"@ != "list"@) by { assert("status"@.len() != "list"@.len()); }
        assert("status"@ != "w"@) by { assert("status"@.len() != "w"@.len()); }
        assert("status"@ != "write"@) by { assert("status"@.len() != "write"@.len()); }
        assert("status"@ != "h"@) by { assert("status"@.len() != "h"@.len()); }
        assert("status"@ != "?"@) by { assert("status"@.len() != "?"@.len()); }
        assert("status"@ != "help"@) by { assert("status"@.len() != "help"@.len()); }
        assert("status"@ != "e"@) by { assert("status"@.len() != "e"@.len()); }
        assert("status"@ != "exit"@) by { assert("status"@.len() != "exit"@.len()); }
        assert("status"@ != "ss"@) by { assert("status"@.len() != "ss"@.len()); }
        assert("status"@ != "search"@) by { assert("status"@[1] != "search"@[1]); }
        assert("status"@ != "x"@) by { assert("status"@.len() != "x"@.len()); }
    }
    assert(command_of("playlist"@) == Command::Playlist) by {
        reveal_strlit("a");
        reveal_strlit("add");
        reveal_strlit("s");
        reveal_strlit("select");
        reveal_strlit("p");
        reveal_strlit("play");
        reveal_strlit("r");
        reveal_strlit("remove");
        reveal_strlit("c");
        reveal_strlit("update");
        reveal_strlit("l");
        reveal_strlit("list");
        reveal_strlit("w");
        reveal_strlit("write");
        reveal_strlit("h");
        reveal_strlit("?");
        reveal_strlit("help");
        reveal_strlit("e");
        reveal_strlit("exit");
        reveal_strlit("ss");
        reveal_strlit("search");
        reveal_strlit("x");
        reveal_strlit("status");
        reveal_strlit("playlist");
        reveal_strlit("pl");
        assert("playlist"@ != "a"@) by { assert("playlist"@.len() != "a"@.len()); }
        assert("playlist"@ != "add"@) by { assert("playlist"@.len() != "add"@.len()); }
        assert("playlist"@ != "s"@) by { assert("playlist"@.len() != "s"@.len()); }
        assert("playlist"@ != "select"@) by { assert("playlist"@.len() != "select"@.len()); }
        assert("playlist"@ != "p"@) by { assert("playlist"@.len() != "p"@.len()); }
        assert("playlist"@ != "play"@) by { assert("playlist"@.len() != "play"@.len()); }
        assert("playlist"@ != "r"@) by { assert("playlist"@.len() != "r"@.len()); }
        assert("playlist"@ != "remove"@) by { assert("playlist"@.len() != "remove"@.len()); }
        assert("playlist"@ != "c"@) by { assert("playlist"@.len() != "c"@.len()); }
        assert("playlist"@ != "update"@) by { assert("playlist"@.len() != "update"@.len()); }
        assert("playlist"@ != "l"@) by { assert("playlist"@.len() != "l"@.len()); }
        assert("playlist"@ != "list"@) by { assert("playlist"@.len() != "list"@.len()); }
        assert("playlist"@ != "w"@) by { assert("playlist"@.len() != "w"@.len()); }
        assert("playlist"@ != "write"@) by { assert("playlist"@.len() != "write"@.len()); }
        assert("playlist"@ != "h"@) by { assert("playlist"@.len() != "h"@.len()); }
        assert("playlist"@ != "?"@) by { assert("playlist"@.len() != "?"@.len()); }
        assert("playlist"@ != "help"@) by { assert("playlist"@.len() != "help"@.len()); }
        assert("playlist"@ != "e"@) by { assert("playlist"@.len() != "e"@.len()); }
        assert("playlist"@ != "exit"@) by { assert("playlist"@.len() != "exit"@.len()); }
        assert("playlist"@ != "ss"@) by { assert("playlist"@.len() != "ss"@.len()); }
        assert("playlist"@ != "search"@) by { assert("playlist"@.len() != "search"@.len()); }
        assert("playlist"@ != "x"@) by { assert("playlist"@.len() != "x"@.len()); }
        assert("playlist"@ != "status"@) by { assert("playlist"@.len() != "status"@.len()); }
        assert("playlist"@ != "pl"@) by { assert("playlist"@.len() != "pl"@.len()); }
    }
    assert(command_of("pl"@) == Command::Playlist) by {
        reveal_strlit("a");
        reveal_strlit("add");
        reveal_strlit("s");
        reveal_strlit("select");
        reveal_strlit("p");
        reveal_strlit("play");
        reveal_strlit("r");
        reveal_strlit("remove");
        reveal_strlit("c");
        reveal_strlit("update");
        reveal_strlit("l");
        reveal_strlit("list");
        reveal_strlit("w");
        reveal_strlit("write");
        reveal_strlit("h");
        reveal_strlit("?");
        reveal_strlit("help");
        reveal_strlit("e");
        reveal_strlit("exit");
        reveal_strlit("ss");
        reveal_strlit("search");
        reveal_strlit("x");
        reveal_strlit("status");
        reveal_strlit("playlist");
        reveal_strlit("pl");
        assert("pl"@ != "a"@) by { assert("pl"@.len() != "a"@.len()); }
        assert("pl"@ != "add"@) by { assert("pl"@.len() != "add"@.len()); }
        assert("pl"@ != "s"@) by { assert("pl"@.len() != "s"@.len()); }
        assert("pl"@ != "select"@) by { assert("pl"@.len() != "select"@.len()); }
        assert("pl"@ != "p"@) by { assert("pl"@.len() != "p"@.len()); }
        assert("pl"@ != "play"@) by { assert("pl"@.len() != "play"@.len()); }
        assert("pl"@ != "r"@) by { assert("pl"@.len() != "r"@.len()); }
        assert("pl"@ != "remove"@) by { assert("pl"@.len() != "remove"@.len()); }
        assert("pl"@ != "c"@) by { assert("pl"@.len() != "c"@.len()); }
        assert("pl"@ != "update"@) by { assert("pl"@.len() != "update"@.len()); }
        assert("pl"@ != "l"@) by { assert("pl"@.len() != "l"@.len()); }
        assert("pl"@ != "list"@) by { assert("pl"@.len() != "list"@.len()); }
        assert("pl"@ != "w"@) by { assert("pl"@.len() != "w"@.len()); }
        assert("pl"@ != "write"@) by { assert("pl"@.len() != "write"@.len()); }
        assert("pl"@ != "h"@) by { assert("pl"@.len() != "h"@.len()); }
        assert("pl"@ != "?"@) by { assert("pl"@.len() != "?"@.len()); }
        assert("pl"@ != "help"@) by { assert("pl"@.len() != "help"@.len()); }
        assert("pl"@ != "e"@) by { assert("pl"@.len() != "e"@.len()); }
        assert("pl"@ != "exit"@) by { assert("pl"@.len() != "exit"@.len()); }
        assert("pl"@ != "ss"@) by { assert("pl"@[0] != "ss"@[0]); }
        assert("pl"@ != "search"@) by { assert("pl"@.len() != "search"@.len()); }
        assert("pl"@ != "x"@) by { assert("pl"@.len() != "x"@.len()); }
        assert("pl"@ != "status"@) by { assert("pl"@.len() != "status"@.len()); }
        assert("pl"@ != "playlist"@) by { assert("pl"@.len() != "playlist"@.len()); }
    }
}

/// Law: each command of playlist mode is named by its short form and by its
/// long form: `(p)lay`, shuffle (`c`), `(a)dd`, `(u)pdate`, `(s)elect`,
/// `(r)emove`, `(l)ist`, `(h)elp` (or `?`), `(as)` add songs.
pub proof fn law_playlist_commands_have_short_forms()
    ensures
        playlist_command_of("p"@) == PlaylistCommand::Play && playlist_command_of("play"@) == PlaylistCommand::Play,
        playlist_command_of("c"@) == PlaylistCommand::Shuffle && playlist_command_of("shuffle"@) == PlaylistCommand::Shuffle,
        playlist_command_of("a"@) == PlaylistCommand::Add && playlist_command_of("add"@) == PlaylistCommand::Add,
        playlist_command_of("u"@) == PlaylistCommand::Update && playlist_command_of("update"@) == PlaylistCommand::Update,
        playlist_command_of("s"@) == PlaylistCommand::Select && playlist_command_of("select"@) == PlaylistCommand::Select,
        playlist_command_of("r"@) == PlaylistCommand::Remove && playlist_command_of("remove"@) == PlaylistCommand::Remove,
        playlist_command_of("l"@) == PlaylistCommand::List && playlist_command_of("list"@) == PlaylistCommand::List,
        playlist_command_of("h"@) == PlaylistCommand::Help && playlist_command_of("help"@) == PlaylistCommand::Help,
        playlist_command_of("?"@) == PlaylistCommand::Help && playlist_command_of("help"@) == PlaylistCommand::Help,
        playlist_command_of("as"@) == PlaylistCommand::AddSongs && playlist_command_of("addsongs"@) == PlaylistCommand::AddSongs,
{
    assert(playlist_command_of("p"@) == PlaylistCommand::Play) by {
        reveal_strlit("p");
        reveal_strlit("play");
        assert("p"@ != "play"@) by { assert("p"@.len() != "play"@.len()); }
    }
    assert(playlist_command_of("play"@) == PlaylistCommand::Play) by {
        reveal_strlit("p");
        reveal_strlit("play");
        assert("play"@ != "p"@) by { assert("play"@.len() != "p"@.len()); }
    }
    assert(playlist_command_of("c"@) == PlaylistCommand::Shuffle) by {
        reveal_strlit("p");
        reveal_strlit("play");
        reveal_strlit("c");
        reveal_strlit("shuffle");
        assert("c"@ != "p"@) by { assert("c"@[0] != "p"@[0]); }
        assert("c"@ != "play"@) by { assert("c"@.len() != "play"@.len()); }
        assert("c"@ != "shuffle"@) by { assert("c"@.len() != "shuffle"@.len()); }
    }
    assert(playlist_command_of("shuffle"@) == PlaylistCommand::Shuffle) by {
        reveal_strlit("p");
        reveal_strlit("play");
        reveal_strlit("c");
        reveal_strlit("shuffle");
        assert("shuffle"@ != "p"@) by { assert("shuffle"@.len() != "p"@.len()); }
        assert("shuffle"@ != "play"@) by { assert("shuffle"@.len() != "play"@.len()); }
        assert("shuffle"@ != "c"@) by { assert("shuffle"@.len() != "c"@.len()); }
    }
    assert(playlist_command_of("a"@) == PlaylistCommand::Add) by {
        reveal_strlit("p");
        reveal_strlit("play");
        reveal_strlit("c");
        reveal_strlit("shuffle");
        reveal_strlit("a");
        reveal_strlit("add");
        assert("a"@ != "p"@) by { assert("a"@[0] != "p"@[0]); }
        assert("a"@ != "play"@) by { assert("a"@.len() != "play"@.len()); }
        assert("a"@ != "c"@) by { assert("a"@[0] != "c"@[0]); }
        assert("a"@ != "shuffle"@) by { assert("a"@.len() != "shuffle"@.len()); }
        assert("a"@ != "add"@) by { assert("a"@.len() != "add"@.len()); }
    }
    assert(playlist_command_of("add"@) == PlaylistCommand::Add) by {
        reveal_strlit("p");
        reveal_strlit("play");
        reveal_strlit("c");
        reveal_strlit("shuffle");
        reveal_strlit("a");
        reveal_strlit("add");
        assert("add"@ != "p"@) by { assert("add"@.len() != "p"@.len()); }
        assert("add"@ != "play"@) by { assert("add"@.len() != "play"@.len()); }
        assert("add"@ != "c"@) by { assert("add"@.len() != "c"@.len()); }
        assert("add"@ != "shuffle"@) by { assert("add"@.len() != "shuffle"@.len()); }
        assert("add"@ != "a"@) by { assert("add"@.len() != "a"@.len()); }
    }
    assert(playlist_command_of("u"@) == PlaylistCommand::Update) by {
        reveal_strlit("p");
        reveal_strlit("play");
        reveal_strlit("c");
        reveal_strlit("shuffle");
        reveal_strlit("a");
        reveal_strlit("add");
        reveal_strlit("u");
        reveal_strlit("update");
        assert("u"@ != "p"@) by { assert("u"@[0] != "p"@[0]); }
        assert("u"@ != "play"@) by { assert("u"@.len() != "play"@.len()); }
        assert("u"@ != "c"@) by { assert("u"@[0] != "c"@[0]); }
        assert("u"@ != "shuffle"@) by { assert("u"@.len() != "shuffle"@.len()); }
        assert("u"@ != "a"@) by { assert("u"@[0] != "a"@[0]); }
        assert("u"@ != "add"@) by { assert("u"@.len() != "add"@.len()); }
        assert("u"@ != "update"@) by { assert("u"@.len() != "update"@.len()); }
    }
    assert(playlist_command_of("update"@) == PlaylistCommand::Update) by {
        reveal_strlit("p");
        reveal_strlit("play");
        reveal_strlit("c");
        reveal_strlit("shuffle");
        reveal_strlit("a");
        reveal_strlit("add");
        reveal_strlit("u");
        reveal_strlit("update");
        assert("update"@ != "p"@) by { assert("update"@.len() != "p"@.len()); }
        assert("update"@ != "play"@) by { assert("update"@.len() != "play"@.len()); }
        assert("update"@ != "c"@) by { assert("update"@.len() != "c"@.len()); }
        assert("update"@ != "shuffle"@) by { assert("update"@.len() != "shuffle"@.len()); }
        assert("update"@ != "a"@) by { assert("update"@.len() != "a"@.len()); }
        assert("update"@ != "add"@) by { assert("update"@.len() != "add"@.len()); }
        assert("update"@ != "u"@) by { assert("update"@.len() != "u"@.len()); }
    }
    assert(playlist_command_of("s"@) == PlaylistCommand::Select) by {
        reveal_strlit("p");
        reveal_strlit("play");
        reveal_strlit("c");
        reveal_strlit("shuffle");
        reveal_strlit("a");
        reveal_strlit("add");
        reveal_strlit("u");
        reveal_strlit("update");
        reveal_strlit("s");
        reveal_strlit("select");
        assert("s"@ != "p"@) by { assert("s"@[0] != "p"@[0]); }
        assert("s"@ != "play"@) by { assert("s"@.len() != "play"@.len()); }
        assert("s"@ != "c"@) by { assert("s"@[0] != "c"@[0]); }
        assert("s"@ != "shuffle"@) by { assert("s"@.len() != "shuffle"@.len()); }
        assert("s"@ != "a"@) by { assert("s"@[0] != "a"@[0]); }
        assert("s"@ != "add"@) by { assert("s"@.len() != "add"@.len()); }
        assert("s"@ != "u"@) by { assert("s"@[0] != "u"@[0]); }
        assert("s"@ != "update"@) by { assert("s"@.len() != "update"@.len()); }
        assert("s"@ != "select"@) by { assert("s"@.len() != "select"@.len()); }
    }
    assert(playlist_command_of("select"@) == PlaylistCommand::Select) by {
        reveal_strlit("p");
        reveal_strlit("play");
        reveal_strlit("c");
        reveal_strlit("shuffle");
        reveal_strlit("a");
        reveal_strlit("add");
        reveal_strlit("u");
        reveal_strlit("update");
        reveal_strlit("s");
        reveal_strlit("select");
        assert("select"@ != "p"@) by { assert("select"@.len() != "p"@.len()); }
        assert("select"@ != "play"@) by { assert("select"@.len() != "play"@.len()); }
        assert("select"@ != "c"@) by { assert("select"@.len() != "c"@.len()); }
        assert("select"@ != "shuffle"@) by { assert("select"@.len() != "shuffle"@.len()); }
        assert("select"@ != "a"@) by { assert("select"@.len() != "a"@.len()); }
        assert("select"@ != "add"@) by { assert("select"@.len() != "add"@.len()); }
        assert("select"@ != "u"@) by { assert("select"@.len() != "u"@.len()); }
        assert("select"@ != "update"@) by { assert("select"@[0] != "update"@[0]); }
        assert("select"@ != "s"@) by { assert("select"@.len() != "s"@.len()); }
    }
    assert(playlist_command_of("r"@) == PlaylistCommand::Remove) by {
        reveal_strlit("p");
        reveal_strlit("play");
        reveal_strlit("c");
        reveal_strlit("shuffle");
        reveal_strlit("a");
        reveal_strlit("add");
        reveal_strlit("u");
        reveal_strlit("update");
        reveal_strlit("s");
        reveal_strlit("select");
        reveal_strlit("r");
        reveal_strlit("remove");
        assert("r"@ != "p"@) by { assert("r"@[0] != "p"@[0]); }
        assert("r"@ != "play"@) by { assert("r"@.len() != "play"@.len()); }
        assert("r"@ != "c"@) by { assert("r"@[0] != "c"@[0]); }
        assert("r"@ != "shuffle"@) by { assert("r"@.len() != "shuffle"@.len()); }
        assert("r"@ != "a"@) by { assert("r"@[0] != "a"@[0]); }
        assert("r"@ != "add"@) by { assert("r"@.len() != "add"@.len()); }
        assert("r"@ != "u"@) by { assert("r"@[0] != "u"@[0]); }
        assert("r"@ != "update"@) by { assert("r"@.len() != "update"@.len()); }
        assert("r"@ != "s"@) by { assert("r"@[0] != "s"@[0]); }
        assert("r"@ != "select"@) by { assert("r"@.len() != "select"@.len()); }
        assert("r"@ != "remove"@) by { assert("r"@.len() != "remove"@.len()); }
    }
    assert(playlist_command_of("remove"@) == PlaylistCommand::Remove) by {
        reveal_strlit("p");
        reveal_strlit("play");
        reveal_strlit("c");
        reveal_strlit("shuffle");
        reveal_strlit("a");
        reveal_strlit("add");
        reveal_strlit("u");
        reveal_strlit("update");
        reveal_strlit("s");
        reveal_strlit("select");
        reveal_strlit("r");
        reveal_strlit("remove");
        assert("remove"@ != "p"@) by { assert("remove"@.len() != "p"@.len()); }
        assert("remove"@ != "play"@) by { assert("remove"@.len() != "play"@.len()); }
        assert("remove"@ != "c"@) by { assert("remove"@.len() != "c"@.len()); }
        assert("remove"@ != "shuffle"@) by { assert("remove"@.len() != "shuffle"@.len()); }
        assert("remove"@ != "a"@) by { assert("remove"@.len() != "a"@.len()); }
        assert("remove"@ != "add"@) by { assert("remove"@.len() != "add"@.len()); }
        assert("remove"@ != "u"@) by { assert("remove"@.len() != "u"@.len()); }
        assert("remove"@ != "update"@) by { assert("remove"@[0] != "update"@[0]); }
        assert("remove"@ != "s"@) by { assert("remove"@.len() != "s"@.len()); }
        assert("remove"@ != "select"@) by { assert("remove"@[0] != "select"@[0]); }
        assert("remove"@ != "r"@) by { assert("remove"@.len() != "r"@.len()); }
    }
    assert(playlist_command_of("l"@) == PlaylistCommand::List) by {
        reveal_strlit("p");
        reveal_strlit("play");
        reveal_strlit("c");
        reveal_strlit("shuffle");
        reveal_strlit("a");
        reveal_strlit("add");
        reveal_strlit("u");
        reveal_strlit("update");
        reveal_strlit("s");
        reveal_strlit("select");
        reveal_strlit("r");
        reveal_strlit("remove");
        reveal_strlit("l");
        reveal_strlit("list");
        assert("l"@ != "p"@) by { assert("l"@[0] != "p"@[0]); }
        assert("l"@ != "play"@) by { assert("l"@.len() != "play"@.len()); }
        assert("l"@ != "c"@) by { assert("l"@[0] != "c"@[0]); }
        assert("l"@ != "shuffle"@) by { assert("l"@.len() != "shuffle"@.len()); }
        assert("l"@ != "a"@) by { assert("l"@[0] != "a"@[0]); }
        assert("l"@ != "add"@) by { assert("l"@.len() != "add"@.len()); }
        assert("l"@ != "u"@) by { assert("l"@[0] != "u"@[0]); }
        assert("l"@ != "update"@) by { assert("l"@.len() != "update"@.len()); }
        assert("l"@ != "s"@) by { assert("l"@[0] != "s"@[0]); }
        assert("l"@ != "select"@) by { assert("l"@.len() != "select"@.len()); }
        assert("l"@ != "r"@) by { assert("l"@[0] != "r"@[0]); }
        assert("l"@ != "remove"@) by { assert("l"@.len() != "remove"@.len()); }
        assert("l"@ != "list"@) by { assert("l"@.len() != "list"@.len()); }
    }
    assert(playlist_command_of("list"@) == PlaylistCommand::List) by {
        reveal_strlit("p");
        reveal_strlit("play");
        reveal_strlit("c");
        reveal_strlit("shuffle");
        reveal_strlit("a");
        reveal_strlit("add");
        reveal_strlit("u");
        reveal_strlit("update");
        reveal_strlit("s");
        reveal_strlit("select");
        reveal_strlit("r");
        reveal_strlit("remove");
        reveal_strlit("l");
        reveal_strlit("list");
        assert("list"@ != "p"@) by { assert("list"@.len() != "p"@.len()); }
        assert("list"@ != "play"@) by { assert("list"@[0] != "play"@[0]); }
        assert("list"@ != "c"@) by { assert("list"@.len() != "c"@.len()); }
        assert("list"@ != "shuffle"@) by { assert("list"@.len() != "shuffle"@.len()); }
        assert("list"@ != "a"@) by { assert("list"@.len() != "a"@.len()); }
        assert("list"@ != "add"@) by { assert("list"@.len() != "add"@.len()); }
        assert("list"@ != "u"@) by { assert("list"@.len() != "u"@.len()); }
        assert("list"@ != "update"@) by { assert("list"@.len() != "update"@.len()); }
        assert("list"@ != "s"@) by { assert("list"@.len() != "s"@.len()); }
        assert("list"@ != "select"@) by { assert("list"@.len() != "select"@.len()); }
        assert("list"@ != "r"@) by { assert("list"@.len() != "r"@.len()); }
        assert("list"@ != "remove"@) by { assert("list"@.len() != "remove"@.len()); }
        assert("list"@ != "l"@) by { assert("list"@.len() != "l"@.len()); }
    }
    assert(playlist_command_of("h"@) == PlaylistCommand::Help) by {
        reveal_strlit("p");
        reveal_strlit("play");
        reveal_strlit("c");
        reveal_strlit("shuffle");
        reveal_strlit("a");
        reveal_strlit("add");
        reveal_strlit("u");
        reveal_strlit("update");
        reveal_strlit("s");
        reveal_strlit("select");
        reveal_strlit("r");
        reveal_strlit("remove");
        reveal_strlit("l");
        reveal_strlit("list");
        reveal_strlit("h");
        reveal_strlit("?");
        reveal_strlit("help");
        assert("h"@ != "p"@) by { assert("h"@[0] != "p"@[0]); }
        assert("h"@ != "play"@) by { assert("h"@.len() != "play"@.len()); }
        assert("h"@ != "c"@) by { assert("h"@[0] != "c"@[0]); }
        assert("h"@ != "shuffle"@) by { assert("h"@.len() != "shuffle"@.len()); }
        assert("h"@ != "a"@) by { assert("h"@[0] != "a"@[0]); }
        assert("h"@ != "add"@) by { assert("h"@.len() != "add"@.len()); }
        assert("h"@ != "u"@) by { assert("h"@[0] != "u"@[0]); }
        assert("h"@ != "update"@) by { assert("h"@.len() != "update"@.len()); }
        assert("h"@ != "s"@) by { assert("h"@[0] != "s"@[0]); }
        assert("h"@ != "select"@) by { assert("h"@.len() != "select"@.len()); }
        assert("h"@ != "r"@) by { assert("h"@[0] != "r"@[0]); }
        assert("h"@ != "remove"@) by { assert("h"@.len() != "remove"@.len()); }
        assert("h"@ != "l"@) by { assert("h"@[0] != "l"@[0]); }
        assert("h"@ != "list"@) by { assert("h"@.len() != "list"@.len()); }
        assert("h"@ != "?"@) by { assert("h"@[0] != "?"@[0]); }
        assert("h"@ != "help"@) by { assert("h"@.len() != "help"@.len()); }
    }
    assert(playlist_command_of("?"@) == PlaylistCommand::Help) by {
        reveal_strlit("p");
        reveal_strlit("play");
        reveal_strlit("c");
        reveal_strlit("shuffle");
        reveal_strlit("a");
        reveal_strlit("add");
        reveal_strlit("u");
        reveal_strlit("update");
        reveal_strlit("s");
        reveal_strlit("select");
        reveal_strlit("r");
        reveal_strlit("remove");
        reveal_strlit("l");
        reveal_strlit("list");
        reveal_strlit("h");
        reveal_strlit("?");
        reveal_strlit("help");
        assert("?"@ != "p"@) by { assert("?"@[0] != "p"@[0]); }
        assert("?"@ != "play"@) by { assert("?"@.len() != "play"@.len()); }
        assert("?"@ != "c"@) by { assert("?"@[0] != "c"@[0]); }
        assert("?"@ != "shuffle"@) by { assert("?"@.len() != "shuffle"@.len()); }
        assert("?"@ != "a"@) by { assert("?"@[0] != "a"@[0]); }
        assert("?"@ != "add"@) by { assert("?"@.len() != "add"@.len()); }
        assert("?"@ != "u"@) by { assert("?"@[0] != "u"@[0]); }
        assert("?"@ != "update"@) by { assert("?"@.len() != "update"@.len()); }
        assert("?"@ != "s"@) by { assert("?"@[0] != "s"@[0]); }
        assert("?"@ != "select"@) by { assert("?"@.len() != "select"@.len()); }
        assert("?"@ != "r"@) by { assert("?"@[0] != "r"@[0]); }
        assert("?"@ != "remove"@) by { assert("?"@.len() != "remove"@.len()); }
        assert("?"@ != "l"@) by { assert("?"@[0] != "l"@[0]); }
        assert("?"@ != "list"@) by { assert("?"@.len() != "list"@.len()); }
        assert("?"@ != "h"@) by { assert("?"@[0] != "h"@[0]); }
        assert("?"@ != "help"@) by { assert("?"@.len() != "help"@.len()); }
    }
    assert(playlist_command_of("help"@) == PlaylistCommand::Help) by {
        reveal_strlit("p");
        reveal_strlit("play");
        reveal_strlit("c");
        reveal_strlit("shuffle");
        reveal_strlit("a");
        reveal_strlit("add");
        reveal_strlit("u");
        reveal_strlit("update");
        reveal_strlit("s");
        reveal_strlit("select");
        reveal_strlit("r");
        reveal_strlit("remove");
        reveal_strlit("l");
        reveal_strlit("list");
        reveal_strlit("h");
        reveal_strlit("?");
        reveal_strlit("help");
        assert("help"@ != "p"@) by { assert("help"@.len() != "p"@.len()); }
        assert("help"@ != "play"@) by { assert("help"@[0] != "play"@[0]); }
        assert("help"@ != "c"@) by { assert("help"@.len() != "c"@.len()); }
        assert("help"@ != "shuffle"@) by { assert("help"@.len() != "shuffle"@.len()); }
        assert("help"@ != "a"@) by { assert("help"@.len() != "a"@.len()); }
        assert("help"@ != "add"@) by { assert("help"@.len() != "add"@.len()); }
        assert("help"@ != "u"@) by { assert("help"@.len() != "u"@.len()); }
        assert("help"@ != "update"@) by { assert("help"@.len() != "update"@.len()); }
        assert("help"@ != "s"@) by { assert("help"@.len() != "s"@.len()); }
        assert("help"@ != "select"@) by { assert("help"@.len() != "select"@.len()); }
        assert("help"@ != "r"@) by { assert("help"@.len() != "r"@.len()); }
        assert("help"@ != "remove"@) by { assert("help"@.len() != "remove"@.len()); }
        assert("help"@ != "l"@) by { assert("help"@.len() != "l"@.len()); }
        assert("help"@ != "list"@) by { assert("help"@[0] != "list"@[0]); }
        assert("help"@ != "h"@) by { assert("help"@.len() != "h"@.len()); }
        assert("help"@ != "?"@) by { assert("help"@.len() != "?"@.len()); }
    }
    assert(playlist_command_of("as"@) == PlaylistCommand::AddSongs) by {
        reveal_strlit("p");
        reveal_strlit("play");
        reveal_strlit("c");
        reveal_strlit("shuffle");
        reveal_strlit("a");
        reveal_strlit("add");
        reveal_strlit("u");
        reveal_strlit("update");
        reveal_strlit("s");
        reveal_strlit("select");
        reveal_strlit("r");
        reveal_strlit("remove");
        reveal_strlit("l");
        reveal_strlit("list");
        reveal_strlit("h");
        reveal_strlit("?");
        reveal_strlit("help");
        reveal_strlit("as");
        reveal_strlit("addsongs");
        assert("as"@ != "p"@) by { assert("as"@.len() != "p"@.len()); }
        assert("as"@ != "play"@) by { assert("as"@.len() != "play"@.len()); }
        assert("as"@ != "c"@) by { assert("as"@.len() != "c"@.len()); }
        assert("as"@ != "shuffle"@) by { assert("as"@.len() != "shuffle"@.len()); }
        assert("as"@ != "a"@) by { assert("as"@.len() != "a"@.len()); }
        assert("as"@ != "add"@) by { assert("as"@.len() != "add"@.len()); }
        assert("as"@ != "u"@) by { assert("as"@.len() != "u"@.len()); }
        assert("as"@ != "update"@) by { assert("as"@.len() != "update"@.len()); }
        assert("as"@ != "s"@) by { assert("as"@.len() != "s"@.len()); }
        assert("as"@ != "select"@) by { assert("as"@.len() != "select"@.len()); }
        assert("as"@ != "r"@) by { assert("as"@.len() != "r"@.len()); }
        assert("as"@ != "remove"@) by { assert("as"@.len() != "remove"@.len()); }
        assert("as"@ != "l"@) by { assert("as"@.len() != "l"@.len()); }
        assert("as"@ != "list"@) by { assert("as"@.len() != "list"@.len()); }
        assert("as"@ != "h"@) by { assert("as"@.len() != "h"@.len()); }
        assert("as"@ != "?"@) by { assert("as"@.len() != "?"@.len()); }
        assert("as"@ != "help"@) by { assert("as"@.len() != "help"@.len()); }
        assert("as"@ != "addsongs"@) by { assert("as"@.len() != "addsongs"@.len()); }
    }
    assert(playlist_command_of("addsongs"@) == PlaylistCommand::AddSongs) by {
        reveal_strlit("p");
        reveal_strlit("play");
        reveal_strlit("c");
        reveal_strlit("shuffle");
        reveal_strlit("a");
        reveal_strlit("add");
        reveal_strlit("u");
        reveal_strlit("update");
        reveal_strlit("s");
        reveal_strlit("select");
        reveal_strlit("r");
        reveal_strlit("remove");
        reveal_strlit("l");
        reveal_strlit("list");
        reveal_strlit("h");
        reveal_strlit("?");
        reveal_strlit("help");
        reveal_strlit("as");
        reveal_strlit("addsongs");
        assert("addsongs"@ != "p"@) by { assert("addsongs"@.len() != "p"@.len()); }
        assert("addsongs"@ != "play"@) by { assert("addsongs"@.len() != "play"@.len()); }
        assert("addsongs"@ != "c"@) by { assert("addsongs"@.len() != "c"@.len()); }
        assert("addsongs"@ != "shuffle"@) by { assert("addsongs"@.len() != "shuffle"@.len()); }
        assert("addsongs"@ != "a"@) by { assert("addsongs"@.len() != "a"@.len()); }
        assert("addsongs"@ != "add"@) by { assert("addsongs"@.len() != "add"@.len()); }
        assert("addsongs"@ != "u"@) by { assert("addsongs"@.len() != "u"@.len()); }
        assert("addsongs"@ != "update"@) by { assert("addsongs"@.len() != "update"@.len()); }
        assert("addsongs"@ != "s"@) by { assert("addsongs"@.len() != "s"@.len()); }
        assert("addsongs"@ != "select"@) by { assert("addsongs"@.len() != "select"@.len()); }
        assert("addsongs"@ != "r"@) by { assert("addsongs"@.len() != "r"@.len()); }
        assert("addsongs"@ != "remove"@) by { assert("addsongs"@.len() != "remove"@.len()); }
        assert("addsongs"@ != "l"@) by { assert("addsongs"@.len() != "l"@.len()); }
        assert("addsongs"@ != "list"@) by { assert("addsongs"@.len() != "list"@.len()); }
        assert("addsongs"@ != "h"@) by { assert("addsongs"@.len() != "h"@.len()); }
        assert("addsongs"@ != "?"@) by { assert("addsongs"@.len() != "?"@.len()); }
        assert("addsongs"@ != "help"@) by { assert("addsongs"@.len() != "help"@.len()); }
        assert("addsongs"@ != "as"@) by { assert("addsongs"@.len() != "as"@.len()); }
    }
}

/// Whether the characters `v` spell `s`.
pub fn chars_equal(v: &Vec<char>, s: &str) -> (b: bool)
    ensures
        b == (v@ == s@),
{
    let w = crate::text::chars_of(s);
    if v.len() != w.len() {
        return false;
    }
    let n = v.len();
    for i in 0..n
        invariant
            n == v@.len(),
            n == w@.len(),
            w@ == s@,
            forall|j: int| 0 <= j < i ==> v@[j] == w@[j],
    {
        if v[i] != w[i] {
            return false;
        }
    }
    assert(v@ =~= w@);
    true
}

/// The command of the main prompt that `input` names, ignoring surrounding
/// white space.
pub fn parse_command(input: &str) -> (c: Command)
    ensures
        c == command_of(trim_text(input@)),
{
    let t = trimmed_chars(input);
    if chars_equal(&t, "a") || chars_equal(&t, "add") {
        Command::Add
    } else if chars_equal(&t, "s") || chars_equal(&t, "select") {
        Command::Select
    } else if chars_equal(&t, "p") || chars_equal(&t, "play") {
        Command::Play
    } else if chars_equal(&t, "r") || chars_equal(&t, "remove") {
        Command::Remove
    } else if chars_equal(&t, "c") || chars_equal(&t, "update") {
        Command::Update
    } else if chars_equal(&t, "l") || chars_equal(&t, "list") {
        Command::List
    } else if chars_equal(&t, "w") || chars_equal(&t, "write") {
        Command::Write
    } else if chars_equal(&t, "h") || chars_equal(&t, "?") || chars_equal(&t, "help") {
        Command::Help
    } else if chars_equal(&t, "e") || chars_equal(&t, "exit") {
        Command::Exit
    } else if chars_equal(&t, "ss") || chars_equal(&t, "search") {
        Command::Search
    } else if chars_equal(&t, "x") {
        Command::TogglePause
    } else if chars_equal(&t, "status") {
        Command::Status
    } else if chars_equal(&t, "playlist") || chars_equal(&t, "pl") {
        Command::Playlist
    } else {
        Command::Invalid
    }
}

/// The command of the playlist prompt that `input` names, ignoring
/// surrounding white space.
pub fn parse_playlist_command(input: &str) -> (c: PlaylistCommand)
    ensures
        c == playlist_command_of(trim_text(input@)),
{
    let t = trimmed_chars(input);
    if chars_equal(&t, "p") || chars_equal(&t, "play") {
        PlaylistCommand::Play
    } else if chars_equal(&t, "c") || chars_equal(&t, "shuffle") {
        PlaylistCommand::Shuffle
    } else if chars_equal(&t, "a") || chars_equal(&t, "add") {
        PlaylistCommand::Add
    } else if chars_equal(&t, "u") || chars_equal(&t, "update") {
        PlaylistCommand::Update
    } else if chars_equal(&t, "s") || chars_equal(&t, "select") {
        PlaylistCommand::Select
    } else if chars_equal(&t, "r") || chars_equal(&t, "remove") {
        PlaylistCommand::Remove
    } else if chars_equal(&t, "l") || chars_equal(&t, "list") {
        PlaylistCommand::List
    } else if chars_equal(&t, "h") || chars_equal(&t, "?") || chars_equal(&t, "help") {
        PlaylistCommand::Help
    } else if chars_equal(&t, "as") || chars_equal(&t, "addsongs") {
        PlaylistCommand::AddSongs
    } else {
        PlaylistCommand::Leave
    }
}

/// The prompt that a line is read under: the one given, `"> "` without one.
pub fn prompt_or_default(prompt: Option<String>) -> (p: String)
    ensures
        p@ == (match prompt {
            Some(q) => q@,
            None => "> "@,
        }),
{
    match prompt {
        Some(q) => q,
        None => string_from("> "),
    }
}

/// The prompt of the main loop: `"<id>> "` with a selection, `"> "` without.
pub open spec fn command_prompt_text(s: ProgramState) -> Seq<char> {
    match s.selected_id {
        Some(id) => decimal(id as nat) + "> "@,
        None => "> "@,
    }
}

/// The prompt of the main loop.
pub fn command_prompt(s: &ProgramState) -> (p: String)
    ensures
        p@ == command_prompt_text(*s),
{
    let mut p = String::new();
    if let Some(id) = s.selected_id {
        push_decimal(&mut p, id as u64);
    }
    p.push_str("> ");
    proof {
        if s.selected_id is None {
            assert(p@ =~= "> "@);
        }
    }
    p
}

/// The prompt of playlist mode: `"<id>$ "` with a selection, `"$ "` without.
pub open spec fn playlist_prompt_text(s: ProgramState) -> Seq<char> {
    match s.selected_id {
        Some(id) => decimal(id as nat) + "$ "@,
        None => "$ "@,
    }
}

/// The prompt of playlist mode.
pub fn playlist_prompt(s: &ProgramState) -> (p: String)
    ensures
        p@ == playlist_prompt_text(*s),
{
    let mut p = String::new();
    if let Some(id) = s.selected_id {
        push_decimal(&mut p, id as u64);
    }
    p.push_str("$ ");
    proof {
        if s.selected_id is None {
            assert(p@ =~= "$ "@);
        }
    }
    p
}

/// A field after an edit prompt: the trimmed input when it is not empty,
/// the current text otherwise.
pub open spec fn updated_text(current: Seq<char>, input: Seq<char>) -> Seq<char> {
    if trim_text(input).len() > 0 {
        trim_text(input)
    } else {
        current
    }
}

/// A duration after its edit prompt: the current one when the trimmed input
/// is empty, what the input parses to otherwise.
pub open spec fn updated_duration(current: u32, input: Seq<char>) -> Result<nat, ParseNumberError> {
    if trim_text(input).len() == 0 {
        Ok(current as nat)
    } else {
        parse_unsigned(trim_text(input), u32::MAX as nat)
    }
}

/// A field after an edit prompt: the trimmed input when it is not empty,
/// the current text otherwise.
pub fn updated_field(current: &String, input: &str) -> (r: String)
    ensures
        r@ == updated_text(current@, input@),
{
    let t = trimmed_chars(input);
    if t.len() > 0 {
        string_of(&t)
    } else {
        current.clone()
    }
}

/// The song `s` after its edit prompts: name, album and artist each take
/// the trimmed line typed for them unless it is blank; the duration stays
/// when its line is blank and is parsed otherwise. A duration that does not
/// parse leaves the song unchanged and is reported.
pub fn updated_song(s: &SongInfo, name: &str, album: &str, artist: &str, duration: &str) -> (r: Result<SongInfo, ParseNumberError>)
    ensures
        match updated_duration(s.duration, duration@) {
            Err(e) => r == Err::<SongInfo, ParseNumberError>(e),
            Ok(d) => r matches Ok(u) && {
                &&& u.name@ == updated_text(s.name@, name@)
                &&& u.album@ == updated_text(s.album@, album@)
                &&& u.artist@ == updated_text(s.artist@, artist@)
                &&& u.duration == d
                &&& u.filename == s.filename
                &&& u.id == s.id
                &&& u.file_entry_up_to_date == s.file_entry_up_to_date
            },
        },
{
    let dur: u32 = if trimmed_chars(duration).len() == 0 {
        s.duration
    } else {
        match parse_id(duration) {
            Ok(d) => d,
            Err(e) => {
                return Err(e);
            },
        }
    };
    let mut u = s.clone();
    u.name = updated_field(&s.name, name);
    u.album = updated_field(&s.album, album);
    u.artist = updated_field(&s.artist, artist);
    u.duration = dur;
    Ok(u)
}

/// Parses the trimmed `input` as a song or playlist id.
pub fn parse_id(input: &str) -> (r: Result<u32, ParseNumberError>)
    ensures
        match parse_unsigned(trim_text(input@), u32::MAX as nat) {
            Ok(n) => n <= u32::MAX && r == Ok::<u32, ParseNumberError>(n as u32),
            Err(e) => r == Err::<u32, ParseNumberError>(e),
        },
{
    let t = string_of(&trimmed_chars(input));
    match crate::text::parse_decimal(t.as_str(), u32::MAX as u64) {
        Ok(n) => Ok(n as u32),
        Err(e) => Err(e),
    }
}

} // verus!
