//! Configuration values and the names by which users choose them.
use vstd::prelude::*;
use crate::event::Position;
use vstd::string::{StrSliceExecFns, StringExecFns};
use vstd::utf8::{char_u32_cast, decode_utf8, encode_utf8, encode_utf8_decode_utf8, encode_utf8_valid_utf8, is_char_boundary, valid_utf8};

verus! {

/// A client the server knows about, by name and side.
#[derive(Debug, Clone)]
pub struct ClientEntry {
    pub name: String,
    pub position: Position,
}

/// The release hotkey used when the configuration names none.
pub fn default_hotkey() -> (s: String)
    ensures
        s@ == "Escape"@,
{
    "Escape".to_owned()
}

/// The position named exactly "Left", "Right", "Top" or "Bottom".
pub open spec fn position_named(s: Seq<char>) -> Option<Position> {
    if s == "Left"@ {
        Some(Position::Left)
    } else if s == "Right"@ {
        Some(Position::Right)
    } else if s == "Top"@ {
        Some(Position::Top)
    } else if s == "Bottom"@ {
        Some(Position::Bottom)
    } else {
        None
    }
}

/// The position named by its capitalised or lower-case name.
pub open spec fn position_named_any_case(s: Seq<char>) -> Option<Position> {
    if s == "Left"@ || s == "left"@ {
        Some(Position::Left)
    } else if s == "Right"@ || s == "right"@ {
        Some(Position::Right)
    } else if s == "Top"@ || s == "top"@ {
        Some(Position::Top)
    } else if s == "Bottom"@ || s == "bottom"@ {
        Some(Position::Bottom)
    } else {
        None
    }
}

fn same(a: &String, b: &str) -> (r: bool)
    ensures
        r == (a@ == b@),
{
    let b = b.to_owned();
    *a == b
}

/// Reads a position written exactly as "Left", "Right", "Top" or "Bottom".
pub fn parse_position(s: &str) -> (r: Option<Position>)
    ensures
        r == position_named(s@),
{
    let s = s.to_owned();
    if same(&s, "Left") {
        Some(Position::Left)
    } else if same(&s, "Right") {
        Some(Position::Right)
    } else if same(&s, "Top") {
        Some(Position::Top)
    } else if same(&s, "Bottom") {
        Some(Position::Bottom)
    } else {
        None
    }
}

/// Reads a position written capitalised or in lower case ("Left" or
/// "left", and so on).
pub fn parse_position_any_case(s: &str) -> (r: Option<Position>)
    ensures
        r == position_named_any_case(s@),
{
    let s = s.to_owned();
    if same(&s, "Left") || same(&s, "left") {
        Some(Position::Left)
    } else if same(&s, "Right") || same(&s, "right") {
        Some(Position::Right)
    } else if same(&s, "Top") || same(&s, "top") {
        Some(Position::Top)
    } else if same(&s, "Bottom") || same(&s, "bottom") {
        Some(Position::Bottom)
    } else {
        None
    }
}

/// What the desktop application is running.
#[derive(Debug, Clone, Copy, PartialEq, Eq, Structural)]
pub enum RunMode {
    Idle,
    Server,
    Client,
}

impl RunMode {
    /// The status word reported for the mode.
    pub fn status(self) -> (s: &'static str)
        ensures
            s@ == (match self {
                RunMode::Idle => "idle"@,
                RunMode::Server => "server"@,
                RunMode::Client => "client"@,
            }),
    {
        match self {
            RunMode::Idle => "idle",
            RunMode::Server => "server",
            RunMode::Client => "client",
        }
    }
}

/// Whether a path starts with the home-directory shorthand "~/".
pub open spec fn starts_with_home(path: Seq<char>) -> bool {
    path.len() >= 2 && path[0] == '~' && path[1] == '/'
}

/// A path with a leading "~/" replaced by the home directory and "/",
/// when the home directory is known; any other path unchanged.
pub open spec fn expand_home_spec(path: Seq<char>, home: Option<Seq<char>>) -> Seq<char> {
    match home {
        Some(h) => if starts_with_home(path) {
            h + seq!['/'] + path.subrange(2, path.len() as int)
        } else {
            path
        },
        None => path,
    }
}

proof fn lemma_home_prefix_bytes(cs: Seq<char>)
    ensures
        starts_with_home(cs) <==> (encode_utf8(cs).len() >= 2 && encode_utf8(cs)[0] == 0x7Eu8
            && encode_utf8(cs)[1] == 0x2Fu8),
        starts_with_home(cs) ==> encode_utf8(cs).subrange(2, encode_utf8(cs).len() as int)
            == encode_utf8(cs.subrange(2, cs.len() as int)) && is_char_boundary(encode_utf8(cs), 2),
{
    let b = encode_utf8(cs);
    encode_utf8_valid_utf8(cs);
    encode_utf8_decode_utf8(cs);
    assert(0x7Eu8 & 0x7Fu8 == 0x7Eu8 && 0x2Fu8 & 0x7Fu8 == 0x2Fu8) by (bit_vector);
    assert(0x7Eu32 & 0x7Fu32 == 0x7Eu32 && 0x2Fu32 & 0x7Fu32 == 0x2Fu32) by (bit_vector);
    if starts_with_home(cs) {
        let t = cs.drop_first();
        assert(t[0] == '/');
        assert(t.drop_first() =~= cs.subrange(2, cs.len() as int));
        assert(b == vstd::utf8::encode_scalar(cs[0] as u32) + encode_utf8(t));
        assert(encode_utf8(t) == vstd::utf8::encode_scalar(t[0] as u32) + encode_utf8(
            t.drop_first(),
        ));
        assert(b =~= seq![0x7Eu8, 0x2Fu8] + encode_utf8(cs.subrange(2, cs.len() as int)));
        assert(b.subrange(2, b.len() as int) =~= encode_utf8(cs.subrange(2, cs.len() as int)));
        let p1 = vstd::utf8::pop_first_scalar(b);
        assert(p1 =~= b.subrange(1, b.len() as int));
        let p2 = vstd::utf8::pop_first_scalar(p1);
        assert(p2 =~= b.subrange(2, b.len() as int));
        assert(valid_utf8(p1));
        assert(valid_utf8(p2));
        assert(is_char_boundary(p2, 0));
        assert(is_char_boundary(p1, 1));
        assert(is_char_boundary(b, 2));
    } else if b.len() >= 2 && b[0] == 0x7Eu8 && b[1] == 0x2Fu8 {
        let p1 = vstd::utf8::pop_first_scalar(b);
        assert(p1[0] == 0x2Fu8);
        assert(decode_utf8(b) == seq![(0x7Eu32) as char] + decode_utf8(p1));
        assert(decode_utf8(p1) == seq![(0x2Fu32) as char] + decode_utf8(
            vstd::utf8::pop_first_scalar(p1),
        ));
        assert(cs[0] == '~');
        assert(cs[1] == '/');
        assert(false);
    }
}

/// Replaces a leading "~/" in `path` with the home directory `home` and "/".
pub fn expand_home(path: &str, home: Option<String>) -> (r: String)
    ensures
        r@ == expand_home_spec(path@, match home {
            Some(h) => Some(h@),
            None => None,
        }),
{
    let bytes = path.as_bytes();
    proof {
        lemma_home_prefix_bytes(path@);
    }
    if bytes.len() >= 2 && bytes[0] == 0x7E && bytes[1] == 0x2F {
        if let Some(h) = home {
            let (_, rest) = path.split_at(2);
            proof {
                encode_utf8_decode_utf8(rest@);
                encode_utf8_decode_utf8(path@.subrange(2, path@.len() as int));
                reveal_strlit("/");
            }
            let mut out = h;
            out.append("/");
            out.append(rest);
            return out;
        }
    }
    path.to_owned()
}

/// The configuration directory used when none is given: ".config/vesa"
/// under the home directory, joined with "/" as a path is joined (no
/// separator after an empty home or one that already ends in "/"), or
/// ".vesa" when the home directory is unknown.
pub open spec fn default_config_dir_spec(home: Option<Seq<char>>) -> Seq<char> {
    match home {
        Some(h) => if h.len() == 0 || h.last() == '/' {
            h + ".config/vesa"@
        } else {
            h + "/.config/vesa"@
        },
        None => ".vesa"@,
    }
}

pub fn default_config_dir(home: Option<String>) -> (r: String)
    ensures
        r@ == default_config_dir_spec(
            match home {
                Some(h) => Some(h@),
                None => None,
            },
        ),
{
    match home {
        Some(h) => {
            let n = h.as_str().unicode_len();
            let joined = n == 0 || h.as_str().get_char(n - 1) == '/';
            let mut out = h;
            if joined {
                out.append(".config/vesa");
            } else {
                out.append("/.config/vesa");
            }
            out
        },
        None => ".vesa".to_owned(),
    }
}

/// `t` is `s` with its first letter, an upper-case ASCII letter, put in
/// lower case.
pub open spec fn first_letter_lowered(s: Seq<char>, t: Seq<char>) -> bool {
    &&& s.len() >= 1
    &&& t.len() == s.len()
    &&& 'A' <= s[0] <= 'Z'
    &&& t[0] as u32 == s[0] as u32 + 32
    &&& t.drop_first() == s.drop_first()
}

/// Reading a side in either case agrees with the exact reading on the
/// capitalised names, and takes each capitalised name with its first letter
/// in lower case as the same side; a name it accepts that the exact
/// reading refuses is such a lowered capitalised name, of the same side.
pub proof fn lemma_position_any_case(s: Seq<char>, t: Seq<char>)
    ensures
        position_named(s) matches Some(p) ==> position_named_any_case(s) == Some(p),
        position_named(s) is Some && first_letter_lowered(s, t) ==> position_named_any_case(t)
            == position_named(s),
        position_named_any_case(t) is Some && position_named(t) is None ==> exists|c: Seq<char>|
            position_named(c) == position_named_any_case(t) && #[trigger] first_letter_lowered(
                c,
                t,
            ),
{
    reveal_strlit("Left");
    reveal_strlit("left");
    reveal_strlit("Right");
    reveal_strlit("right");
    reveal_strlit("Top");
    reveal_strlit("top");
    reveal_strlit("Bottom");
    reveal_strlit("bottom");
    if position_named_any_case(t) is Some && position_named(t) is None {
        let c = if t == "left"@ {
            "Left"@
        } else if t == "right"@ {
            "Right"@
        } else if t == "top"@ {
            "Top"@
        } else {
            "Bottom"@
        };
        assert(c.drop_first() =~= t.drop_first());
        assert(first_letter_lowered(c, t));
    }
    if position_named(s) is Some && first_letter_lowered(s, t) {
        assert forall|i: int| 1 <= i < t.len() implies t[i] == s[i] by {
            assert(t[i] == t.drop_first()[i - 1]);
            assert(s[i] == s.drop_first()[i - 1]);
        }
        if s == "Left"@ {
            assert(s[0] == 'L');
            char_u32_cast(t[0], t[0] as u32);
            char_u32_cast('l', 'l' as u32);
            assert(t =~= "left"@);
        } else if s == "Right"@ {
            assert(s[0] == 'R');
            char_u32_cast(t[0], t[0] as u32);
            char_u32_cast('r', 'r' as u32);
            assert(t =~= "right"@);
        } else if s == "Top"@ {
            assert(s[0] == 'T');
            char_u32_cast(t[0], t[0] as u32);
            char_u32_cast('t', 't' as u32);
            assert(t =~= "top"@);
        } else {
            assert(s[0] == 'B');
            char_u32_cast(t[0], t[0] as u32);
            char_u32_cast('b', 'b' as u32);
            assert(t =~= "bottom"@);
        }
    }
}

/// Home expansion: with a known home, a path starting with "~/" becomes the
/// home, a "/" and the rest of the path after "~/"; every other path, and
/// every path when the home is unknown, is left as it is.
pub proof fn lemma_expand_home(path: Seq<char>, home: Option<Seq<char>>)
    ensures
        ({
            let r = expand_home_spec(path, home);
            &&& (home matches Some(h) && path.len() >= 2 && path[0] == '~' && path[1] == '/')
                ==> r.len() == home->Some_0.len() + path.len() - 1 && r.subrange(
                0,
                home->Some_0.len() as int,
            ) == home->Some_0 && r[home->Some_0.len() as int] == '/' && r.subrange(
                home->Some_0.len() + 1 as int,
                r.len() as int,
            ) == path.subrange(2, path.len() as int)
            &&& !(home is Some && path.len() >= 2 && path[0] == '~' && path[1] == '/') ==> r
                == path
        }),
{
    if home is Some && starts_with_home(path) {
        let h = home->Some_0;
        let r = expand_home_spec(path, home);
        assert(r.subrange(0, h.len() as int) =~= h);
        assert(r.subrange(h.len() + 1 as int, r.len() as int) =~= path.subrange(2, path.len() as int));
    }
}

/// The default configuration directory: with a known home it is the home
/// followed by ".config/vesa", with exactly one "/" between them unless the
/// home is empty; with no home it is ".vesa".
pub proof fn lemma_default_config_dir(home: Option<Seq<char>>)
    ensures
        ({
            let r = default_config_dir_spec(home);
            &&& home is None ==> r == ".vesa"@
            &&& home matches Some(h) ==> r.subrange(0, home->Some_0.len() as int)
                == home->Some_0 && r.subrange(r.len() - 12, r.len() as int) == ".config/vesa"@
                && (home->Some_0.len() > 0 ==> r[r.len() - 13] == '/') && (home->Some_0.len() == 0
                ==> r == ".config/vesa"@) && r.len() <= home->Some_0.len() + 13
        }),
{
    reveal_strlit(".config/vesa");
    reveal_strlit("/.config/vesa");
    if home is Some {
        let h = home->Some_0;
        let r = default_config_dir_spec(home);
        assert(r.subrange(0, h.len() as int) =~= h);
        assert(r.subrange(r.len() - 12, r.len() as int) =~= ".config/vesa"@);
        if h.len() == 0 {
            assert(r =~= ".config/vesa"@);
        }
    }
}

} // verus!
