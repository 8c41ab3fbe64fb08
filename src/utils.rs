//! Helpers on strings and collections: joining, profile-file names, colored
//! text.

use vstd::prelude::*;
use vstd::string::*;
use vstd::utf8::encode_utf8;

use crate::profile::{ends_with_profile_suffix, has_profile_suffix};
use crate::text::{chars_of, has_dot_dot, joined};

verus! {

/// The strings `items` with `sep` between each two of them.
pub fn join(sep: &str, items: &Vec<String>) -> (r: String)
    ensures
        r@ == joined(items@.map_values(|s: String| s@), sep@),
{
    let ghost views = items@.map_values(|s: String| s@);
    let mut r = String::new();
    if items.len() == 0 {
        return r;
    }
    r.append(items[0].as_str());
    let mut k: usize = 1;
    assert(views.subrange(0, 1).drop_last() =~= Seq::<Seq<char>>::empty());
    assert(r@ =~= joined(views.subrange(0, 1), sep@));
    while k < items.len()
        invariant
            1 <= k <= items@.len(),
            views == items@.map_values(|s: String| s@),
            r@ == joined(views.subrange(0, k as int), sep@),
        decreases items@.len() - k,
    {
        r.append(sep);
        r.append(items[k].as_str());
        assert(views.subrange(0, k + 1).drop_last() =~= views.subrange(0, k as int));
        k = k + 1;
    }
    assert(views.subrange(0, k as int) =~= views);
    r
}


/// A text that carries terminal color codes around its content.
#[derive(Clone, Debug, Default, PartialEq, Eq, Hash)]
pub struct ColoredText {
    inner: String,
}

impl ColoredText {
    /// The text, color codes included.
    pub closed spec fn view(&self) -> Seq<char> {
        self.inner@
    }

    /// A colored text holding `inner`, which already carries its color codes.
    pub fn from_colored(inner: String) -> (r: ColoredText)
        ensures
            r.view() == inner@,
    {
        ColoredText { inner }
    }

    /// The underlying string.
    pub fn get_ref(&self) -> (r: &String)
        ensures
            r@ == self.view(),
    {
        &self.inner
    }

    /// The bytes of the text (UTF-8).
    pub fn as_bytes(&self) -> (r: &[u8])
        ensures
            r@ == encode_utf8(self.view()),
    {
        self.inner.as_str().as_bytes()
    }

    /// The text.
    pub fn as_str(&self) -> (r: &str)
        ensures
            r@ == self.view(),
    {
        self.inner.as_str()
    }

    /// The bytes of the text (UTF-8), as a vector.
    pub fn into_bytes(self) -> (r: Vec<u8>)
        ensures
            r@ == encode_utf8(self.view()),
    {
        self.inner.as_str().as_bytes_vec()
    }

    /// The underlying string.
    pub fn into_string(self) -> (r: String)
        ensures
            r@ == self.view(),
    {
        self.inner
    }
}


/// The values of `items` when every item is `Ok`, else the first error.
pub fn collect_results_to_vec<T, E>(items: Vec<Result<T, E>>) -> (r: Result<Vec<T>, E>)
    ensures
        match r {
            Ok(v) => (forall|i: int| 0 <= i < items@.len() ==> (#[trigger] items@[i]) is Ok)
                && v@ == items@.map_values(|x: Result<T, E>| x->Ok_0),
            Err(e) => exists|i: int|
                0 <= i < items@.len() && (#[trigger] items@[i]) == Err::<T, E>(e) && forall|j: int|
                    0 <= j < i ==> (#[trigger] items@[j]) is Ok,
        },
{
    let ghost all = items@;
    let n = items.len();
    let mut rest = items;
    let mut out: Vec<T> = Vec::new();
    let mut k: usize = 0;
    while rest.len() > 0
        invariant
            all == items@,
            n == all.len(),
            k + rest@.len() == all.len(),
            rest@ == all.subrange(k as int, all.len() as int),
            out@ == all.subrange(0, k as int).map_values(|x: Result<T, E>| x->Ok_0),
            forall|j: int| 0 <= j < k ==> (#[trigger] all[j]) is Ok,
        decreases rest@.len(),
    {
        assert(rest@[0] == all[k as int]);
        match rest.remove(0) {
            Ok(v) => {
                out.push(v);
                assert(out@ =~= all.subrange(0, k + 1).map_values(|x: Result<T, E>| x->Ok_0));
            },
            Err(e) => {
                assert(all[k as int] == Err::<T, E>(e));
                return Err(e);
            },
        }
        assert(rest@ =~= all.subrange(k + 1, all.len() as int));
        k = k + 1;
    }
    assert(all.subrange(0, k as int) =~= all);
    Ok(out)
}


/// The profile-file name for `raw`: `raw` itself when it ends with `.inc`,
/// `.local` or `.profile`, else `raw` followed by `.profile`. Names holding `..`
/// are refused.
pub fn get_name1(raw: &str) -> (r: String)
    requires
        !has_dot_dot(raw@),
    ensures
        r@ == if has_profile_suffix(raw@) {
            raw@
        } else {
            raw@ + ".profile"@
        },
{
    let v = chars_of(raw);
    if ends_with_profile_suffix(&v) {
        String::from_str(raw)
    } else {
        let mut r = String::from_str(raw);
        r.append(".profile");
        r
    }
}

} // verus!
