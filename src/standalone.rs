//! The decisions made while a profile and the profiles it includes are inlined
//! or listed; reading the included profiles is left to the caller.

use vstd::prelude::*;
use vstd::string::*;

use crate::profile_stream::{line_bounds, lines_of};
use crate::text::{chars_of, ends_with, has_suffix, piece, range_is};

verus! {

/// How many include levels deep the expansion is.
#[derive(Clone, Copy, Debug, PartialEq, Eq, Hash, Structural)]
pub struct RecusionLevel(pub u8);

impl RecusionLevel {
    /// The level of the profile asked for.
    pub fn zero() -> (r: RecusionLevel)
        ensures
            r.0 == 0,
    {
        RecusionLevel(0)
    }

    /// The deepest level that is still expanded.
    pub fn max() -> (r: RecusionLevel)
        ensures
            r.0 == 16,
    {
        RecusionLevel(16)
    }

    /// The level below `current`.
    pub fn incremented(current: RecusionLevel) -> (r: RecusionLevel)
        requires
            current.0 < 255,
        ensures
            r.0 == current.0 + 1,
    {
        RecusionLevel(current.0 + 1)
    }
}

/// `s` starts with `include ` .
pub open spec fn is_include(s: Seq<char>) -> bool {
    s.len() >= 8 && s.subrange(0, 8) == "include "@
}

/// What to do with one line of a profile that is being inlined.
#[derive(Clone, Debug, PartialEq, Eq)]
pub enum IncludeStep {
    /// Copy the line as it is.
    Copy,
    /// Replace the line by the profile it names.
    Expand(String),
    /// The line names a profile, but includes are nested too deeply.
    TooDeep,
}

/// What to do with the line `line` at the include level `level`: an `include`
/// line is copied when it names a `.inc` and `keep_incs` is set, or a `.local` and
/// `keep_locals` is set; otherwise it is expanded, unless the level is beyond the
/// deepest one. Every other line is copied.
pub fn include_step(line: &str, keep_incs: bool, keep_locals: bool, level: RecusionLevel) -> (r: IncludeStep)
    ensures
        !is_include(line@) ==> r is Copy,
        is_include(line@) && ((keep_incs && has_suffix(line@, ".inc"@)) || (keep_locals
            && has_suffix(line@, ".local"@))) ==> r is Copy,
        is_include(line@) && !((keep_incs && has_suffix(line@, ".inc"@)) || (keep_locals
            && has_suffix(line@, ".local"@))) ==> (if level.0 > 16 {
            r is TooDeep
        } else {
            r matches IncludeStep::Expand(name) && name@ == line@.subrange(8, line@.len() as int)
        }),
{
    let v = chars_of(line);
    let n = v.len();
    if n < 8 || !range_is(&v, 0, 8, "include ") {
        return IncludeStep::Copy;
    }
    if (keep_incs && ends_with(&v, ".inc")) || (keep_locals && ends_with(&v, ".local")) {
        return IncludeStep::Copy;
    }
    if level.0 > 16 {
        return IncludeStep::TooDeep;
    }
    IncludeStep::Expand(piece(line, 8, n))
}

/// The profiles named by the `include` lines of `ls` whose names end with `suffix`.
pub open spec fn included(ls: Seq<Seq<char>>, suffix: Seq<char>) -> Seq<Seq<char>>
    decreases ls.len(),
{
    if ls.len() == 0 {
        Seq::<Seq<char>>::empty()
    } else {
        let l = ls.last();
        let before = included(ls.drop_last(), suffix);
        if is_include(l) && has_suffix(l.subrange(8, l.len() as int), suffix) {
            before.push(l.subrange(8, l.len() as int))
        } else {
            before
        }
    }
}

/// The `.local` profiles and the `.profile` profiles that `content` includes, in
/// order.
pub fn include_lists(content: &str) -> (r: (Vec<String>, Vec<String>))
    ensures
        r.0@.map_values(|s: String| s@) == included(lines_of(content@), ".local"@),
        r.1@.map_values(|s: String| s@) == included(lines_of(content@), ".profile"@),
{
    let v = chars_of(content);
    let bounds = line_bounds(&v);
    let ghost ls = lines_of(content@);
    let mut locals: Vec<String> = Vec::new();
    let mut profiles: Vec<String> = Vec::new();
    let mut k: usize = 0;
    while k < bounds.len()
        invariant
            k <= bounds@.len(),
            v@ == content@,
            ls == lines_of(content@),
            bounds@.len() == ls.len(),
            forall|j: int|
                0 <= j < bounds@.len() ==> (#[trigger] bounds@[j]).0 <= bounds@[j].1 <= v@.len()
                    && v@.subrange(bounds@[j].0 as int, bounds@[j].1 as int) == ls[j],
            locals@.map_values(|s: String| s@) == included(ls.subrange(0, k as int), ".local"@),
            profiles@.map_values(|s: String| s@) == included(ls.subrange(0, k as int), ".profile"@),
        decreases bounds@.len() - k,
    {
        let (a, b) = bounds[k];
        assert(bounds@[k as int].0 == a && bounds@[k as int].1 == b);
        let ghost l = ls[k as int];
        assert(ls.subrange(0, k + 1).drop_last() =~= ls.subrange(0, k as int));
        assert(ls.subrange(0, k + 1).last() == l);
        let ghost old_locals = locals@.map_values(|s: String| s@);
        let ghost old_profiles = profiles@.map_values(|s: String| s@);
        if b - a >= 8 && range_is(&v, a, a + 8, "include ") {
            assert(l.subrange(0, 8) =~= v@.subrange(a as int, a + 8));
            let name = piece(content, a + 8, b);
            let name_chars = chars_of(name.as_str());
            assert(name@ =~= l.subrange(8, l.len() as int));
            if ends_with(&name_chars, ".local") {
                locals.push(name);
                assert(locals@.map_values(|s: String| s@) =~= old_locals.push(l.subrange(8, l.len() as int)));
            } else if ends_with(&name_chars, ".profile") {
                profiles.push(name);
                assert(profiles@.map_values(|s: String| s@) =~= old_profiles.push(l.subrange(8, l.len() as int)));
            }
            proof {
                lemma_local_not_profile(l.subrange(8, l.len() as int));
            }
        } else {
            assert(!is_include(l)) by {
                if is_include(l) {
                    assert(l.subrange(0, 8) =~= v@.subrange(a as int, a + 8));
                }
            }
        }
        k = k + 1;
    }
    assert(ls.subrange(0, k as int) =~= ls);
    (locals, profiles)
}

/// A name does not end with both `.local` and `.profile`.
proof fn lemma_local_not_profile(s: Seq<char>)
    ensures
        !(has_suffix(s, ".local"@) && has_suffix(s, ".profile"@)),
{
    reveal_strlit(".local");
    reveal_strlit(".profile");
    if has_suffix(s, ".local"@) && has_suffix(s, ".profile"@) {
        assert(".local"@.len() == 6 && ".local"@[5] == 'l');
        assert(".profile"@.len() == 8 && ".profile"@[7] == 'e');
        assert(s[s.len() - 1] == ".local"@[5]);
        assert(s[s.len() - 1] == ".profile"@[7]);
    }
}

/// The includes of `.local` profiles that are shown: all but the global ones.
pub open spec fn shown_local(name: Seq<char>) -> bool {
    name != "globals.local"@ && name != "pre-globals.local"@ && name != "post-globals.local"@
}

/// The `.local` profiles of `names` that are shown, in order.
pub fn shown_locals(names: &Vec<String>) -> (r: Vec<String>)
    ensures
        r@.map_values(|s: String| s@) == names@.map_values(|s: String| s@).filter(
            |n: Seq<char>| shown_local(n),
        ),
{
    let ghost views = names@.map_values(|s: String| s@);
    let mut r: Vec<String> = Vec::new();
    let mut k: usize = 0;
    while k < names.len()
        invariant
            k <= names@.len(),
            views == names@.map_values(|s: String| s@),
            r@.map_values(|s: String| s@) == views.subrange(0, k as int).filter(
                |n: Seq<char>| shown_local(n),
            ),
        decreases names@.len() - k,
    {
        proof {
            reveal(Seq::filter);
        }
        let ghost before = r@.map_values(|s: String| s@);
        assert(views.subrange(0, k + 1).drop_last() =~= views.subrange(0, k as int));
        let v = chars_of(names[k].as_str());
        let n = v.len();
        proof {
            assert(v@.subrange(0, n as int) =~= v@);
        }
        let hidden = range_is(&v, 0, n, "globals.local") || range_is(&v, 0, n, "pre-globals.local")
            || range_is(&v, 0, n, "post-globals.local");
        if !hidden {
            r.push(names[k].clone());
            assert(r@.map_values(|s: String| s@) =~= before.push(views[k as int]));
        } else {
            assert(r@.map_values(|s: String| s@) =~= before);
        }
        k = k + 1;
    }
    assert(views.subrange(0, k as int) =~= views);
    r
}

} // verus!
