//! Path syntax for the two platform families, on plain text: joining a
//! directory with a child name and finding the final component of a path.

use crate::text::{concat2, concat3, same_text};
use vstd::prelude::*;
use vstd::string::*;

verus! {

/// The operating-system family whose path syntax and install locations apply.
#[derive(Clone, Copy, Debug, PartialEq, Eq, Structural)]
pub enum Platform {
    Windows,
    Unix,
}

impl Platform {
    /// The character this platform writes between the components of a path.
    pub open spec fn separator(self) -> char {
        match self {
            Platform::Windows => '\\',
            Platform::Unix => '/',
        }
    }

    /// Whether `c` ends a path component on this platform.
    pub open spec fn separates(self, c: char) -> bool {
        match self {
            Platform::Windows => c == '\\' || c == '/',
            Platform::Unix => c == '/',
        }
    }

    /// The separator that this platform writes, as text.
    pub fn main_separator(self) -> (s: &'static str)
        ensures
            s@ == seq![self.separator()],
    {
        proof {
            reveal_strlit("\\");
            reveal_strlit("/");
        }
        let s = match self {
            Platform::Windows => "\\",
            Platform::Unix => "/",
        };
        assert(s@ =~= seq![self.separator()]);
        s
    }

    /// Whether `c` ends a path component on this platform.
    pub fn is_separator(self, c: char) -> (b: bool)
        ensures
            b == self.separates(c),
    {
        match self {
            Platform::Windows => c == '\\' || c == '/',
            Platform::Unix => c == '/',
        }
    }
}

/// Whether `c` is an ASCII letter.
pub open spec fn is_letter(c: char) -> bool {
    ('a' <= c && c <= 'z') || ('A' <= c && c <= 'Z')
}

/// The length of the drive designator (`C:`) that `path` starts with: 2 on
/// Windows when there is one, else 0.
pub open spec fn drive_len(platform: Platform, path: Seq<char>) -> int {
    if platform == Platform::Windows && path.len() >= 2 && is_letter(path[0]) && path[1] == ':' {
        2
    } else {
        0
    }
}

/// Whether a separator has to be written between `base` and a child name:
/// not after nothing, not after a separator, not after a bare drive designator.
pub open spec fn needs_separator(platform: Platform, base: Seq<char>) -> bool {
    &&& base.len() > 0
    &&& !platform.separates(base.last())
    &&& !(drive_len(platform, base) == 2 && base.len() == 2)
}

/// The path of the child `name` inside the directory `base`: `name` is
/// appended, whatever it holds.
pub open spec fn join_spec(platform: Platform, base: Seq<char>, name: Seq<char>) -> Seq<char> {
    if needs_separator(platform, base) {
        base + seq![platform.separator()] + name
    } else {
        base + name
    }
}

/// `s` without the separators it ends with, never cutting below `low` characters.
pub open spec fn strip_separators(platform: Platform, s: Seq<char>, low: int) -> Seq<char>
    decreases s.len(),
{
    if s.len() > low && s.len() > 0 && platform.separates(s.last()) {
        strip_separators(platform, s.drop_last(), low)
    } else {
        s
    }
}

/// Where the last component of `s` starts: just behind the last separator at or
/// after `low`, or `low` itself.
pub open spec fn component_start(platform: Platform, s: Seq<char>, low: int) -> int
    decreases s.len(),
{
    if s.len() > low && s.len() > 0 && !platform.separates(s.last()) {
        component_start(platform, s.drop_last(), low)
    } else {
        s.len() as int
    }
}

/// The component that names the directory itself.
pub open spec fn dot() -> Seq<char> {
    seq!['.']
}

/// The component that names the directory above.
pub open spec fn dot_dot() -> Seq<char> {
    seq!['.', '.']
}

/// The final component of the first `end` characters of `path`, where the
/// components start at `low`: trailing separators and trailing `.` components
/// are passed over; `..`, a lone `.` and a path without components have none.
pub open spec fn final_component(platform: Platform, path: Seq<char>, low: int, end: int) -> Option<
    Seq<char>,
>
    recommends
        0 <= low <= end <= path.len(),
    decreases end,
{
    if !(0 <= low <= end <= path.len()) {
        None
    } else {
        let t = strip_separators(platform, path.take(end), low);
        let b = component_start(platform, t, low);
        let c = t.skip(b);
        if c.len() == 0 {
            None
        } else if c == dot_dot() {
            None
        } else if c == dot() {
            if low < b < end {
                final_component(platform, path, low, b)
            } else {
                None
            }
        } else {
            Some(c)
        }
    }
}

/// The name of the file or directory that `path` ends in, if it has one.
pub open spec fn file_name_spec(platform: Platform, path: Seq<char>) -> Option<Seq<char>> {
    final_component(platform, path, drive_len(platform, path), path.len() as int)
}

/// The directory part of a path that ends in a file name.
pub open spec fn parent_spec(platform: Platform, path: Seq<char>) -> Seq<char> {
    let low = drive_len(platform, path);
    let head = path.take(component_start(platform, path, low));
    let root = if head.len() > low && platform.separates(head[low]) {
        low + 1
    } else {
        low
    };
    strip_separators(platform, head, root)
}

fn is_ascii_letter(c: char) -> (b: bool)
    ensures
        b == is_letter(c),
{
    ('a' <= c && c <= 'z') || ('A' <= c && c <= 'Z')
}

fn drive_prefix_len(platform: Platform, path: &str, len: usize) -> (n: usize)
    requires
        len == path@.len(),
    ensures
        n == drive_len(platform, path@),
        n <= len,
{
    match platform {
        Platform::Windows => {
            if len >= 2 && is_ascii_letter(path.get_char(0)) && path.get_char(1) == ':' {
                2
            } else {
                0
            }
        },
        Platform::Unix => 0,
    }
}

/// The path of the child `name` inside the directory `base`, in the syntax of
/// `platform`.
///
/// `name` is meant to be a plain name or a relative path, as every name is
/// that this crate joins. A `name` that is itself absolute is appended like
/// any other; it does not replace `base`.
pub fn join(platform: Platform, base: &str, name: &str) -> (path: String)
    ensures
        path@ == join_spec(platform, base@, name@),
{
    let n = base.unicode_len();
    let needs = if n == 0 {
        false
    } else if platform.is_separator(base.get_char(n - 1)) {
        false
    } else {
        !(n == 2 && drive_prefix_len(platform, base, n) == 2)
    };
    if needs {
        concat3(base, platform.main_separator(), name)
    } else {
        concat2(base, name)
    }
}

/// The directory part of a path that ends in a file name: the path without
/// its final component and without the separators before it, except that a
/// root separator stays.
///
/// Nothing else is normalised: a `.` component before the file name stays
/// (`/p/./f` gives `/p/.`), which names the same directory.
pub fn parent(platform: Platform, path: &str) -> (dir: String)
    ensures
        dir@ == parent_spec(platform, path@),
{
    let n = path.unicode_len();
    let low = drive_prefix_len(platform, path, n);
    let mut b: usize = n;
    proof {
        assert(path@.take(n as int) =~= path@);
    }
    while b > low && !platform.is_separator(path.get_char(b - 1))
        invariant
            low <= b <= n,
            n == path@.len(),
            component_start(platform, path@, low as int) == component_start(
                platform,
                path@.take(b as int),
                low as int,
            ),
        decreases b,
    {
        proof {
            assert(path@.take(b as int).last() == path@[b - 1]);
            assert(path@.take(b as int).drop_last() =~= path@.take(b - 1));
        }
        b = b - 1;
    }
    proof {
        if b > low {
            assert(path@.take(b as int).last() == path@[b - 1]);
        }
        assert(component_start(platform, path@, low as int) == b);
    }
    let ghost head = path@.take(b as int);
    let root: usize = if b > low && platform.is_separator(path.get_char(low)) {
        low + 1
    } else {
        low
    };
    let mut e: usize = b;
    proof {
        assert(head.take(b as int) =~= head);
    }
    while e > root && platform.is_separator(path.get_char(e - 1))
        invariant
            root <= e <= b <= n,
            n == path@.len(),
            head == path@.take(b as int),
            strip_separators(platform, head, root as int) == strip_separators(
                platform,
                head.take(e as int),
                root as int,
            ),
        decreases e,
    {
        proof {
            assert(head.take(e as int).last() == path@[e - 1]);
            assert(head.take(e as int).drop_last() =~= head.take(e - 1));
        }
        e = e - 1;
    }
    proof {
        if e > root {
            assert(head.take(e as int).last() == path@[e - 1]);
        }
        assert(strip_separators(platform, head, root as int) == head.take(e as int));
        assert(head.take(e as int) =~= path@.subrange(0, e as int));
    }
    path.substring_char(0, e).to_owned()
}

/// The name of the file or directory that `path` ends in on `platform`, if it
/// has one.
///
/// Of the Windows prefixes only the drive designator (`C:`) is set apart. A
/// network share is read as two components, so `\\server\share` has the
/// name `share`.
pub fn file_name(platform: Platform, path: &str) -> (name: Option<String>)
    ensures
        name.deep_view() == file_name_spec(platform, path@),
{
    let n = path.unicode_len();
    let low = drive_prefix_len(platform, path, n);
    let mut end: usize = n;
    loop
        invariant
            low <= end <= n,
            n == path@.len(),
            low == drive_len(platform, path@),
            file_name_spec(platform, path@) == final_component(
                platform,
                path@,
                low as int,
                end as int,
            ),
        decreases end,
    {
        let ghost whole = path@.take(end as int);
        let mut e: usize = end;
        proof {
            assert(whole.take(end as int) =~= whole);
        }
        while e > low && platform.is_separator(path.get_char(e - 1))
            invariant
                low <= e <= end <= n,
                n == path@.len(),
                whole == path@.take(end as int),
                strip_separators(platform, whole, low as int) == strip_separators(
                    platform,
                    whole.take(e as int),
                    low as int,
                ),
            decreases e,
        {
            proof {
                assert(whole.take(e as int).last() == path@[e - 1]);
                assert(whole.take(e as int).drop_last() =~= whole.take(e - 1));
            }
            e = e - 1;
        }
        let ghost t = whole.take(e as int);
        proof {
            if e > low {
                assert(t.last() == path@[e - 1]);
            }
            assert(strip_separators(platform, whole, low as int) == t);
        }
        let mut b: usize = e;
        proof {
            assert(t.take(e as int) =~= t);
        }
        while b > low && !platform.is_separator(path.get_char(b - 1))
            invariant
                low <= b <= e <= end <= n,
                n == path@.len(),
                t == path@.take(end as int).take(e as int),
                component_start(platform, t, low as int) == component_start(
                    platform,
                    t.take(b as int),
                    low as int,
                ),
            decreases b,
        {
            proof {
                assert(t.take(b as int).last() == path@[b - 1]);
                assert(t.take(b as int).drop_last() =~= t.take(b - 1));
            }
            b = b - 1;
        }
        proof {
            if b > low {
                assert(t.take(b as int).last() == path@[b - 1]);
            }
            assert(component_start(platform, t, low as int) == b);
            assert(t.skip(b as int) =~= path@.subrange(b as int, e as int));
        }
        let component = path.substring_char(b, e);
        if b == e {
            return None;
        }
        proof {
            reveal_strlit("..");
            reveal_strlit(".");
            assert(".."@ =~= dot_dot());
            assert("."@ =~= dot());
        }
        if same_text(component, "..") {
            return None;
        }
        if same_text(component, ".") {
            if b == low {
                return None;
            }
            end = b;
        } else {
            return Some(component.to_owned());
        }
    }
}

} // verus!
