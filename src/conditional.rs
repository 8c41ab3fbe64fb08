//! Directives that apply only when a condition holds.

use vstd::prelude::*;
use vstd::string::*;

use crate::command::{lemma_keyword, lemma_parse_text, lemma_text_of_parse, parse_command, spaced, Command, CommandView};
use crate::error::Error;
use crate::text::{
    chars_of, find, find_char, find_from, lemma_find_from_bounds, lemma_split_word, piece,
    range_is, split_word,
};

verus! {

/// The condition in front of a conditional directive.
#[derive(Clone, Copy, Debug, PartialEq, Eq, Hash, Structural)]
pub enum Guard {
    BrowserAllowDrm,
    BrowserDisableU2f,
    HasAppimage,
    HasNet,
    HasNodbus,
    HasNosound,
    HasPrivate,
    HasX11,
}

impl Guard {
    /// The guard as it is written.
    pub open spec fn text(self) -> Seq<char> {
        match self {
            Guard::BrowserAllowDrm => "?BROWSER_ALLOW_DRM:"@,
            Guard::BrowserDisableU2f => "?BROWSER_DISABLE_U2F:"@,
            Guard::HasAppimage => "?HAS_APPIMAGE:"@,
            Guard::HasNet => "?HAS_NET:"@,
            Guard::HasNodbus => "?HAS_NODBUS:"@,
            Guard::HasNosound => "?HAS_NOSOUND:"@,
            Guard::HasPrivate => "?HAS_PRIVATE:"@,
            Guard::HasX11 => "?HAS_X11:"@,
        }
    }

    /// The guard spelled by `v[lo..hi]`, if any.
    pub fn parse_range(v: &Vec<char>, lo: usize, hi: usize) -> (r: Option<Guard>)
        requires
            lo <= hi <= v@.len(),
        ensures
            r == guard_of(v@.subrange(lo as int, hi as int)),
    {
        if range_is(v, lo, hi, "?BROWSER_ALLOW_DRM:") {
            return Some(Guard::BrowserAllowDrm);
        }
        if range_is(v, lo, hi, "?BROWSER_DISABLE_U2F:") {
            return Some(Guard::BrowserDisableU2f);
        }
        if range_is(v, lo, hi, "?HAS_APPIMAGE:") {
            return Some(Guard::HasAppimage);
        }
        if range_is(v, lo, hi, "?HAS_NET:") {
            return Some(Guard::HasNet);
        }
        if range_is(v, lo, hi, "?HAS_NODBUS:") {
            return Some(Guard::HasNodbus);
        }
        if range_is(v, lo, hi, "?HAS_NOSOUND:") {
            return Some(Guard::HasNosound);
        }
        if range_is(v, lo, hi, "?HAS_PRIVATE:") {
            return Some(Guard::HasPrivate);
        }
        if range_is(v, lo, hi, "?HAS_X11:") {
            return Some(Guard::HasX11);
        }
        None
    }
}

/// The guard spelled by `s`, if any.
pub open spec fn guard_of(s: Seq<char>) -> Option<Guard> {
    if s == "?BROWSER_ALLOW_DRM:"@ {
        Some(Guard::BrowserAllowDrm)
    } else if s == "?BROWSER_DISABLE_U2F:"@ {
        Some(Guard::BrowserDisableU2f)
    } else if s == "?HAS_APPIMAGE:"@ {
        Some(Guard::HasAppimage)
    } else if s == "?HAS_NET:"@ {
        Some(Guard::HasNet)
    } else if s == "?HAS_NODBUS:"@ {
        Some(Guard::HasNodbus)
    } else if s == "?HAS_NOSOUND:"@ {
        Some(Guard::HasNosound)
    } else if s == "?HAS_PRIVATE:"@ {
        Some(Guard::HasPrivate)
    } else if s == "?HAS_X11:"@ {
        Some(Guard::HasX11)
    } else {
        None
    }
}

/// Each guard is read back as itself, and holds no space.
pub proof fn lemma_guard(g: Guard)
    ensures
        guard_of(g.text()) == Some(g),
        !g.text().contains(' '),
{
    reveal_strlit("?BROWSER_ALLOW_DRM:");
    assert("?BROWSER_ALLOW_DRM:"@.len() == 19 && "?BROWSER_ALLOW_DRM:"@[0] == '?' && "?BROWSER_ALLOW_DRM:"@[1] == 'B' && "?BROWSER_ALLOW_DRM:"@[2] == 'R' && "?BROWSER_ALLOW_DRM:"@[3] == 'O' && "?BROWSER_ALLOW_DRM:"@[4] == 'W' && "?BROWSER_ALLOW_DRM:"@[5] == 'S' && "?BROWSER_ALLOW_DRM:"@[6] == 'E' && "?BROWSER_ALLOW_DRM:"@[7] == 'R' && "?BROWSER_ALLOW_DRM:"@[8] == '_' && "?BROWSER_ALLOW_DRM:"@[9] == 'A' && "?BROWSER_ALLOW_DRM:"@[10] == 'L' && "?BROWSER_ALLOW_DRM:"@[11] == 'L' && "?BROWSER_ALLOW_DRM:"@[12] == 'O' && "?BROWSER_ALLOW_DRM:"@[13] == 'W' && "?BROWSER_ALLOW_DRM:"@[14] == '_' && "?BROWSER_ALLOW_DRM:"@[15] == 'D' && "?BROWSER_ALLOW_DRM:"@[16] == 'R' && "?BROWSER_ALLOW_DRM:"@[17] == 'M' && "?BROWSER_ALLOW_DRM:"@[18] == ':');
    reveal_strlit("?BROWSER_DISABLE_U2F:");
    assert("?BROWSER_DISABLE_U2F:"@.len() == 21 && "?BROWSER_DISABLE_U2F:"@[0] == '?' && "?BROWSER_DISABLE_U2F:"@[1] == 'B' && "?BROWSER_DISABLE_U2F:"@[2] == 'R' && "?BROWSER_DISABLE_U2F:"@[3] == 'O' && "?BROWSER_DISABLE_U2F:"@[4] == 'W' && "?BROWSER_DISABLE_U2F:"@[5] == 'S' && "?BROWSER_DISABLE_U2F:"@[6] == 'E' && "?BROWSER_DISABLE_U2F:"@[7] == 'R' && "?BROWSER_DISABLE_U2F:"@[8] == '_' && "?BROWSER_DISABLE_U2F:"@[9] == 'D' && "?BROWSER_DISABLE_U2F:"@[10] == 'I' && "?BROWSER_DISABLE_U2F:"@[11] == 'S' && "?BROWSER_DISABLE_U2F:"@[12] == 'A' && "?BROWSER_DISABLE_U2F:"@[13] == 'B' && "?BROWSER_DISABLE_U2F:"@[14] == 'L' && "?BROWSER_DISABLE_U2F:"@[15] == 'E' && "?BROWSER_DISABLE_U2F:"@[16] == '_' && "?BROWSER_DISABLE_U2F:"@[17] == 'U' && "?BROWSER_DISABLE_U2F:"@[18] == '2' && "?BROWSER_DISABLE_U2F:"@[19] == 'F' && "?BROWSER_DISABLE_U2F:"@[20] == ':');
    reveal_strlit("?HAS_APPIMAGE:");
    assert("?HAS_APPIMAGE:"@.len() == 14 && "?HAS_APPIMAGE:"@[0] == '?' && "?HAS_APPIMAGE:"@[1] == 'H' && "?HAS_APPIMAGE:"@[2] == 'A' && "?HAS_APPIMAGE:"@[3] == 'S' && "?HAS_APPIMAGE:"@[4] == '_' && "?HAS_APPIMAGE:"@[5] == 'A' && "?HAS_APPIMAGE:"@[6] == 'P' && "?HAS_APPIMAGE:"@[7] == 'P' && "?HAS_APPIMAGE:"@[8] == 'I' && "?HAS_APPIMAGE:"@[9] == 'M' && "?HAS_APPIMAGE:"@[10] == 'A' && "?HAS_APPIMAGE:"@[11] == 'G' && "?HAS_APPIMAGE:"@[12] == 'E' && "?HAS_APPIMAGE:"@[13] == ':');
    reveal_strlit("?HAS_NET:");
    assert("?HAS_NET:"@.len() == 9 && "?HAS_NET:"@[0] == '?' && "?HAS_NET:"@[1] == 'H' && "?HAS_NET:"@[2] == 'A' && "?HAS_NET:"@[3] == 'S' && "?HAS_NET:"@[4] == '_' && "?HAS_NET:"@[5] == 'N' && "?HAS_NET:"@[6] == 'E' && "?HAS_NET:"@[7] == 'T' && "?HAS_NET:"@[8] == ':');
    reveal_strlit("?HAS_NODBUS:");
    assert("?HAS_NODBUS:"@.len() == 12 && "?HAS_NODBUS:"@[0] == '?' && "?HAS_NODBUS:"@[1] == 'H' && "?HAS_NODBUS:"@[2] == 'A' && "?HAS_NODBUS:"@[3] == 'S' && "?HAS_NODBUS:"@[4] == '_' && "?HAS_NODBUS:"@[5] == 'N' && "?HAS_NODBUS:"@[6] == 'O' && "?HAS_NODBUS:"@[7] == 'D' && "?HAS_NODBUS:"@[8] == 'B' && "?HAS_NODBUS:"@[9] == 'U' && "?HAS_NODBUS:"@[10] == 'S' && "?HAS_NODBUS:"@[11] == ':');
    reveal_strlit("?HAS_NOSOUND:");
    assert("?HAS_NOSOUND:"@.len() == 13 && "?HAS_NOSOUND:"@[0] == '?' && "?HAS_NOSOUND:"@[1] == 'H' && "?HAS_NOSOUND:"@[2] == 'A' && "?HAS_NOSOUND:"@[3] == 'S' && "?HAS_NOSOUND:"@[4] == '_' && "?HAS_NOSOUND:"@[5] == 'N' && "?HAS_NOSOUND:"@[6] == 'O' && "?HAS_NOSOUND:"@[7] == 'S' && "?HAS_NOSOUND:"@[8] == 'O' && "?HAS_NOSOUND:"@[9] == 'U' && "?HAS_NOSOUND:"@[10] == 'N' && "?HAS_NOSOUND:"@[11] == 'D' && "?HAS_NOSOUND:"@[12] == ':');
    reveal_strlit("?HAS_PRIVATE:");
    assert("?HAS_PRIVATE:"@.len() == 13 && "?HAS_PRIVATE:"@[0] == '?' && "?HAS_PRIVATE:"@[1] == 'H' && "?HAS_PRIVATE:"@[2] == 'A' && "?HAS_PRIVATE:"@[3] == 'S' && "?HAS_PRIVATE:"@[4] == '_' && "?HAS_PRIVATE:"@[5] == 'P' && "?HAS_PRIVATE:"@[6] == 'R' && "?HAS_PRIVATE:"@[7] == 'I' && "?HAS_PRIVATE:"@[8] == 'V' && "?HAS_PRIVATE:"@[9] == 'A' && "?HAS_PRIVATE:"@[10] == 'T' && "?HAS_PRIVATE:"@[11] == 'E' && "?HAS_PRIVATE:"@[12] == ':');
    reveal_strlit("?HAS_X11:");
    assert("?HAS_X11:"@.len() == 9 && "?HAS_X11:"@[0] == '?' && "?HAS_X11:"@[1] == 'H' && "?HAS_X11:"@[2] == 'A' && "?HAS_X11:"@[3] == 'S' && "?HAS_X11:"@[4] == '_' && "?HAS_X11:"@[5] == 'X' && "?HAS_X11:"@[6] == '1' && "?HAS_X11:"@[7] == '1' && "?HAS_X11:"@[8] == ':');
    reveal_with_fuel(find_from, 24);
    assert(find(g.text(), ' ') == g.text().len());
    lemma_find_from_bounds(g.text(), ' ', 0);
}

/// A conditional directive as values.
pub struct ConditionalView {
    pub guard: Guard,
    pub command: CommandView,
}

impl ConditionalView {
    /// The line that states this conditional directive.
    pub open spec fn text(self) -> Seq<char> {
        self.guard.text() + seq![' '] + self.command.text()
    }
}

/// The conditional directive stated by the line `s`: the guard is the text before
/// the first space, and the directive is read from the text after it.
pub open spec fn parse_conditional(s: Seq<char>) -> Result<ConditionalView, Error> {
    match split_word(s).1 {
        None => Err(Error::EmptyCondition),
        Some(rest) => if rest.len() == 0 {
            Err(Error::EmptyCondition)
        } else {
            match guard_of(split_word(s).0) {
                None => Err(Error::BadCondition),
                Some(g) => match parse_command(rest) {
                    Ok(c) => Ok(ConditionalView { guard: g, command: c }),
                    Err(e) => Err(e),
                },
            }
        },
    }
}

/// A directive that applies only when its guard holds.
#[non_exhaustive]
#[derive(Clone, Debug, Eq, Hash)]
pub enum Conditional {
    BrowserAllowDrm(Command),
    BrowserDisableU2f(Command),
    HasAppimage(Command),
    HasNet(Command),
    HasNodbus(Command),
    HasNosound(Command),
    HasPrivate(Command),
    HasX11(Command),
}

impl Conditional {
    /// The conditional directive as values.
    pub open spec fn view(&self) -> ConditionalView {
        match self {
            Conditional::BrowserAllowDrm(c) => ConditionalView { guard: Guard::BrowserAllowDrm, command: c.view() },
            Conditional::BrowserDisableU2f(c) => ConditionalView { guard: Guard::BrowserDisableU2f, command: c.view() },
            Conditional::HasAppimage(c) => ConditionalView { guard: Guard::HasAppimage, command: c.view() },
            Conditional::HasNet(c) => ConditionalView { guard: Guard::HasNet, command: c.view() },
            Conditional::HasNodbus(c) => ConditionalView { guard: Guard::HasNodbus, command: c.view() },
            Conditional::HasNosound(c) => ConditionalView { guard: Guard::HasNosound, command: c.view() },
            Conditional::HasPrivate(c) => ConditionalView { guard: Guard::HasPrivate, command: c.view() },
            Conditional::HasX11(c) => ConditionalView { guard: Guard::HasX11, command: c.view() },
        }
    }

    /// The line that states this conditional directive, without a line break.
    pub fn format(&self) -> (r: String)
        ensures
            r@ == self.view().text(),
    {
        match self {
            Conditional::BrowserAllowDrm(c) => spaced("?BROWSER_ALLOW_DRM:", c.format().as_str()),
            Conditional::BrowserDisableU2f(c) => spaced("?BROWSER_DISABLE_U2F:", c.format().as_str()),
            Conditional::HasAppimage(c) => spaced("?HAS_APPIMAGE:", c.format().as_str()),
            Conditional::HasNet(c) => spaced("?HAS_NET:", c.format().as_str()),
            Conditional::HasNodbus(c) => spaced("?HAS_NODBUS:", c.format().as_str()),
            Conditional::HasNosound(c) => spaced("?HAS_NOSOUND:", c.format().as_str()),
            Conditional::HasPrivate(c) => spaced("?HAS_PRIVATE:", c.format().as_str()),
            Conditional::HasX11(c) => spaced("?HAS_X11:", c.format().as_str()),
        }
    }

    /// Reads the conditional directive stated by `line`.
    pub fn parse(line: &str) -> (r: Result<Conditional, Error>)
        ensures
            conditional_result(r) == parse_conditional(line@),
    {
        let v = chars_of(line);
        let n = v.len();
        let p = find_char(&v, ' ', 0, n);
        proof {
            assert(v@.subrange(0, n as int) =~= v@);
        }
        if p == n || p + 1 == n {
            return Err(Error::EmptyCondition);
        }
        let g = match Guard::parse_range(&v, 0, p) {
            Some(g) => g,
            None => {
                return Err(Error::BadCondition);
            },
        };
        let rest = piece(line, p + 1, n);
        let c = match Command::parse(rest.as_str()) {
            Ok(c) => c,
            Err(e) => {
                return Err(e);
            },
        };
        match g {
            Guard::BrowserAllowDrm => Ok(Conditional::BrowserAllowDrm(c)),
            Guard::BrowserDisableU2f => Ok(Conditional::BrowserDisableU2f(c)),
            Guard::HasAppimage => Ok(Conditional::HasAppimage(c)),
            Guard::HasNet => Ok(Conditional::HasNet(c)),
            Guard::HasNodbus => Ok(Conditional::HasNodbus(c)),
            Guard::HasNosound => Ok(Conditional::HasNosound(c)),
            Guard::HasPrivate => Ok(Conditional::HasPrivate(c)),
            Guard::HasX11 => Ok(Conditional::HasX11(c)),
        }
    }
}

/// The view of a parse result.
pub open spec fn conditional_result(r: Result<Conditional, Error>) -> Result<ConditionalView, Error> {
    match r {
        Ok(c) => Ok(c.view()),
        Err(e) => Err(e),
    }
}

impl PartialEq for Conditional {
    fn eq(&self, other: &Conditional) -> (r: bool) {
        match (self, other) {
            (Conditional::BrowserAllowDrm(a), Conditional::BrowserAllowDrm(b)) => a.eq(b),
            (Conditional::BrowserDisableU2f(a), Conditional::BrowserDisableU2f(b)) => a.eq(b),
            (Conditional::HasAppimage(a), Conditional::HasAppimage(b)) => a.eq(b),
            (Conditional::HasNet(a), Conditional::HasNet(b)) => a.eq(b),
            (Conditional::HasNodbus(a), Conditional::HasNodbus(b)) => a.eq(b),
            (Conditional::HasNosound(a), Conditional::HasNosound(b)) => a.eq(b),
            (Conditional::HasPrivate(a), Conditional::HasPrivate(b)) => a.eq(b),
            (Conditional::HasX11(a), Conditional::HasX11(b)) => a.eq(b),
            _ => false,
        }
    }
}

impl vstd::std_specs::cmp::PartialEqSpecImpl for Conditional {
    open spec fn obeys_eq_spec() -> bool {
        true
    }

    open spec fn eq_spec(&self, other: &Conditional) -> bool {
        self.view() == other.view()
    }
}

/// Writing the conditional directive read from a line gives that line back.
pub proof fn lemma_conditional_text_of_parse(s: Seq<char>)
    ensures
        parse_conditional(s) is Ok ==> parse_conditional(s)->Ok_0.text() == s,
{
    lemma_find_from_bounds(s, ' ', 0);
    if parse_conditional(s) is Ok {
        let p = find(s, ' ');
        let rest = split_word(s).1->Some_0;
        let g = guard_of(split_word(s).0)->Some_0;
        lemma_text_of_parse(rest);
        assert(s =~= s.subrange(0, p) + seq![' '] + s.subrange(p + 1, s.len() as int));
    }
}

/// Reading the line of a conditional directive gives it back, when its directive
/// is well formed.
pub proof fn lemma_conditional_round_trip(cv: ConditionalView)
    requires
        cv.command.well_formed(),
    ensures
        parse_conditional(cv.text()) == Ok::<ConditionalView, Error>(cv),
{
    lemma_keyword(cv.command.keyword);
    lemma_guard(cv.guard);
    lemma_split_word(cv.guard.text(), cv.command.text());
    lemma_parse_text(cv.command);
}

} // verus!
