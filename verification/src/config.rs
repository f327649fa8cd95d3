//! Fixed process-wide configuration: the keybinding table and the
//! layout of the queue columns.

use crate::text::str_eq;
use vstd::prelude::*;
use vstd::string::StrSliceExecFns;

verus! {

/// Symbolic key representation consumed by the dispatcher; the caller
/// decodes raw terminal input to this.
#[derive(Clone, Copy, PartialEq, Eq, Structural, Debug)]
pub enum KeyCode {
    Backspace,
    Enter,
    Left,
    Right,
    Up,
    Down,
    Home,
    End,
    PageUp,
    Tab,
    BackTab,
    Delete,
    Insert,
    Esc,
    Null,
    Char(char),
}

/// Which column of a queue row to show.
#[derive(Clone, Copy, PartialEq, Eq, Structural, Debug)]
pub enum PlaylistLayout {
    File,
    Title,
    Duration,
    Album,
    Artist,
    Track,
}

/// The key code a configured key name stands for: a single character
/// names itself, the known multi-character names map to special keys,
/// and anything else maps to `Null`.
pub open spec fn to_keycode_spec(key: Seq<char>) -> KeyCode {
    if key.len() == 1 {
        KeyCode::Char(key[0])
    } else if key == "backspace"@ {
        KeyCode::Backspace
    } else if key == "enter"@ {
        KeyCode::Enter
    } else if key == "left"@ {
        KeyCode::Left
    } else if key == "right"@ {
        KeyCode::Right
    } else if key == "up"@ {
        KeyCode::Up
    } else if key == "down"@ {
        KeyCode::Down
    } else if key == "home"@ {
        KeyCode::Home
    } else if key == "end"@ {
        KeyCode::End
    } else if key == "pageup"@ {
        KeyCode::PageUp
    } else if key == "tab"@ {
        KeyCode::Tab
    } else if key == "backtab"@ {
        KeyCode::BackTab
    } else if key == "delete"@ {
        KeyCode::Delete
    } else if key == "insert"@ {
        KeyCode::Insert
    } else if key == "esc"@ {
        KeyCode::Esc
    } else {
        KeyCode::Null
    }
}

/// The keybinding table: one code per action, plus the rows of the help
/// overlay (key name and description).
pub struct Keys {
    quit: KeyCode,
    switch_tab: KeyCode,
    toggle_pause: KeyCode,
    vol_down: KeyCode,
    vol_up: KeyCode,
    queue_next: KeyCode,
    queue_prev: KeyCode,
    switch_song: KeyCode,
    keys: Vec<Vec<String>>,
}

impl Keys {
    pub closed spec fn spec_quit(self) -> KeyCode {
        self.quit
    }

    pub closed spec fn spec_switch_tab(self) -> KeyCode {
        self.switch_tab
    }

    pub closed spec fn spec_toggle_pause(self) -> KeyCode {
        self.toggle_pause
    }

    pub closed spec fn spec_vol_down(self) -> KeyCode {
        self.vol_down
    }

    pub closed spec fn spec_vol_up(self) -> KeyCode {
        self.vol_up
    }

    pub closed spec fn spec_queue_next(self) -> KeyCode {
        self.queue_next
    }

    pub closed spec fn spec_queue_prev(self) -> KeyCode {
        self.queue_prev
    }

    pub closed spec fn spec_switch_song(self) -> KeyCode {
        self.switch_song
    }

    /// The help rows, as sequences of characters.
    pub closed spec fn spec_keys(self) -> Seq<Seq<Seq<char>>> {
        self.keys.deep_view()
    }

    pub fn quit(&self) -> (r: KeyCode)
        ensures
            r == self.spec_quit(),
    {
        self.quit
    }

    pub fn switch_tab(&self) -> (r: KeyCode)
        ensures
            r == self.spec_switch_tab(),
    {
        self.switch_tab
    }

    pub fn toggle_pause(&self) -> (r: KeyCode)
        ensures
            r == self.spec_toggle_pause(),
    {
        self.toggle_pause
    }

    pub fn vol_down(&self) -> (r: KeyCode)
        ensures
            r == self.spec_vol_down(),
    {
        self.vol_down
    }

    pub fn vol_up(&self) -> (r: KeyCode)
        ensures
            r == self.spec_vol_up(),
    {
        self.vol_up
    }

    pub fn queue_next(&self) -> (r: KeyCode)
        ensures
            r == self.spec_queue_next(),
    {
        self.queue_next
    }

    pub fn queue_prev(&self) -> (r: KeyCode)
        ensures
            r == self.spec_queue_prev(),
    {
        self.queue_prev
    }

    pub fn switch_song(&self) -> (r: KeyCode)
        ensures
            r == self.spec_switch_song(),
    {
        self.switch_song
    }

    /// The rows of the help overlay: key name and description.
    pub fn keys(&self) -> (r: &Vec<Vec<String>>)
        ensures
            r.deep_view() == self.spec_keys(),
    {
        &self.keys
    }

    /// Record one binding in the help table and return its key code.
    fn gen_key_and_desc(keys: &mut Vec<Vec<String>>, key: &str, desc: &str) -> (r: KeyCode)
        ensures
            r == to_keycode_spec(key@),
            final(keys).deep_view() == old(keys).deep_view().push(seq![key@, desc@]),
    {
        let mut cell: Vec<String> = Vec::new();
        cell.push(key.to_owned());
        cell.push(desc.to_owned());
        keys.push(cell);
        proof {
            assert(keys.deep_view() =~~= old(keys).deep_view().push(seq![key@, desc@]));
        }
        to_keycode(key)
    }
}

/// Parse a configured key name into a key code.
pub fn to_keycode(key: &str) -> (r: KeyCode)
    ensures
        r == to_keycode_spec(key@),
{
    if key.unicode_len() == 1 {
        KeyCode::Char(key.get_char(0))
    } else if str_eq(key, "backspace") {
        KeyCode::Backspace
    } else if str_eq(key, "enter") {
        KeyCode::Enter
    } else if str_eq(key, "left") {
        KeyCode::Left
    } else if str_eq(key, "right") {
        KeyCode::Right
    } else if str_eq(key, "up") {
        KeyCode::Up
    } else if str_eq(key, "down") {
        KeyCode::Down
    } else if str_eq(key, "home") {
        KeyCode::Home
    } else if str_eq(key, "end") {
        KeyCode::End
    } else if str_eq(key, "pageup") {
        KeyCode::PageUp
    } else if str_eq(key, "tab") {
        KeyCode::Tab
    } else if str_eq(key, "backtab") {
        KeyCode::BackTab
    } else if str_eq(key, "delete") {
        KeyCode::Delete
    } else if str_eq(key, "insert") {
        KeyCode::Insert
    } else if str_eq(key, "esc") {
        KeyCode::Esc
    } else {
        KeyCode::Null
    }
}

/// The fixed default bindings: `q` quit, tab switch tab, `p` toggle
/// pause, left/right volume down/up, `j`/`k` selection next/previous,
/// enter switch to the selected track — together with the help rows
/// that describe them.
pub open spec fn is_default_keys(k: Keys) -> bool {
    &&& k.spec_quit() == KeyCode::Char('q')
    &&& k.spec_switch_tab() == KeyCode::Tab
    &&& k.spec_toggle_pause() == KeyCode::Char('p')
    &&& k.spec_vol_down() == KeyCode::Left
    &&& k.spec_vol_up() == KeyCode::Right
    &&& k.spec_queue_next() == KeyCode::Char('j')
    &&& k.spec_queue_prev() == KeyCode::Char('k')
    &&& k.spec_switch_song() == KeyCode::Enter
    &&& k.spec_keys() == seq![
        seq!["q"@, "Quit"@],
        seq!["tab"@, "Switch tab"@],
        seq!["p"@, "Toggle pause"@],
        seq!["left"@, "Volume down"@],
        seq!["right"@, "Volume up"@],
        seq!["j"@, "Move next"@],
        seq!["k"@, "Move back"@],
        seq!["enter"@, "Switch to song under cursor"@],
    ]
}

impl Default for Keys {
    /// The fixed default bindings; there is no config file to override
    /// them.
    fn default() -> (k: Keys)
        ensures
            is_default_keys(k),
    {
        let mut keys: Vec<Vec<String>> = Vec::new();

        let quit = Keys::gen_key_and_desc(&mut keys, "q", "Quit");
        let switch_tab = Keys::gen_key_and_desc(&mut keys, "tab", "Switch tab");
        let toggle_pause = Keys::gen_key_and_desc(&mut keys, "p", "Toggle pause");
        let vol_down = Keys::gen_key_and_desc(&mut keys, "left", "Volume down");
        let vol_up = Keys::gen_key_and_desc(&mut keys, "right", "Volume up");
        let queue_next = Keys::gen_key_and_desc(&mut keys, "j", "Move next");
        let queue_prev = Keys::gen_key_and_desc(&mut keys, "k", "Move back");
        let switch_song = Keys::gen_key_and_desc(
            &mut keys,
            "enter",
            "Switch to song under cursor",
        );

        proof {
            reveal_strlit("q");
            reveal_strlit("p");
            reveal_strlit("j");
            reveal_strlit("k");
            reveal_strlit("backspace");
            reveal_strlit("enter");
            reveal_strlit("left");
            reveal_strlit("right");
            reveal_strlit("up");
            reveal_strlit("down");
            reveal_strlit("home");
            reveal_strlit("end");
            reveal_strlit("pageup");
            reveal_strlit("tab");
            assert("tab"@ != "end"@) by {
                assert("tab"@[0] == 't');
                assert("end"@[0] == 'e');
            }
            assert("right"@ != "enter"@) by {
                assert("right"@[0] == 'r');
                assert("enter"@[0] == 'e');
            }
            assert(keys.deep_view() =~~= seq![
                seq!["q"@, "Quit"@],
                seq!["tab"@, "Switch tab"@],
                seq!["p"@, "Toggle pause"@],
                seq!["left"@, "Volume down"@],
                seq!["right"@, "Volume up"@],
                seq!["j"@, "Move next"@],
                seq!["k"@, "Move back"@],
                seq!["enter"@, "Switch to song under cursor"@],
            ]);
        }

        Keys {
            quit,
            switch_tab,
            toggle_pause,
            vol_down,
            vol_up,
            queue_next,
            queue_prev,
            switch_song,
            keys,
        }
    }
}

/// Fixed configuration, constructed once at startup: the keybinding
/// table and the queue column layout (column kind and width in percent).
pub struct Config {
    keys: Keys,
    playlist_layout: Vec<(PlaylistLayout, u16)>,
}

/// The default column layout of the queue table.
pub open spec fn default_layout() -> Seq<(PlaylistLayout, u16)> {
    seq![
        (PlaylistLayout::Artist, 20u16),
        (PlaylistLayout::Track, 5u16),
        (PlaylistLayout::Title, 30u16),
        (PlaylistLayout::Album, 30u16),
        (PlaylistLayout::Duration, 5u16),
    ]
}

impl Config {
    pub closed spec fn spec_keys(self) -> Keys {
        self.keys
    }

    pub closed spec fn spec_playlist_layout(self) -> Seq<(PlaylistLayout, u16)> {
        self.playlist_layout@
    }

    /// Build the configuration; there is no config file, so this is the
    /// default table and layout.
    pub fn new() -> (c: Config)
        ensures
            is_default_keys(c.spec_keys()),
            c.spec_playlist_layout() == default_layout(),
    {
        Config::default()
    }

    pub fn keys(&self) -> (r: &Keys)
        ensures
            r == self.spec_keys(),
    {
        &self.keys
    }

    pub fn playlist_layout(&self) -> (r: &Vec<(PlaylistLayout, u16)>)
        ensures
            r@ == self.spec_playlist_layout(),
    {
        &self.playlist_layout
    }
}

impl Default for Config {
    fn default() -> (c: Config)
        ensures
            is_default_keys(c.spec_keys()),
            c.spec_playlist_layout() == default_layout(),
    {
        let mut playlist_layout: Vec<(PlaylistLayout, u16)> = Vec::new();
        playlist_layout.push((PlaylistLayout::Artist, 20));
        playlist_layout.push((PlaylistLayout::Track, 5));
        playlist_layout.push((PlaylistLayout::Title, 30));
        playlist_layout.push((PlaylistLayout::Album, 30));
        playlist_layout.push((PlaylistLayout::Duration, 5));
        proof {
            assert(playlist_layout@ =~= default_layout());
        }
        Config { keys: Keys::default(), playlist_layout }
    }
}

} // verus!
