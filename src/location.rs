//! Directories where profiles are stored.

use vstd::prelude::*;
use vstd::string::*;

use crate::text::{chars_of, ends_with};

verus! {

/// `name` pushed onto the path `base`: an absolute `name` replaces `base`,
/// otherwise a `/` is put between the two unless `base` is empty or ends with one.
pub open spec fn pushed_path(base: Seq<char>, name: Seq<char>) -> Seq<char> {
    if name.len() > 0 && name[0] == '/' {
        name
    } else if base.len() == 0 {
        name
    } else if base.last() == '/' {
        base + name
    } else {
        base + seq!['/'] + name
    }
}

/// A directory where profiles are stored, such as `/etc/firejail/`.
#[derive(Clone, Debug)]
pub struct Location {
    inner: String,
}

impl Location {
    /// The path of the directory.
    pub closed spec fn view(&self) -> Seq<char> {
        self.inner@
    }

    /// The location at the path `path`.
    pub fn from(path: &str) -> (r: Location)
        ensures
            r.view() == path@,
    {
        Location { inner: String::from_str(path) }
    }

    /// The path of the profile named `name` in this location; whether it exists
    /// is not checked.
    pub fn get_profile_path(&self, name: &str) -> (r: String)
        ensures
            r@ == pushed_path(self.view(), name@),
    {
        proof {
            reveal_strlit("/");
            assert("/"@ =~= seq!['/']);
        }
        if !name.is_empty() && name.get_char(0) == '/' {
            return String::from_str(name);
        }
        if self.inner.as_str().is_empty() {
            return String::from_str(name);
        }
        let v = chars_of(self.inner.as_str());
        let mut r = self.inner.clone();
        if !ends_with(&v, "/") {
            assert(v@.last() != '/') by {
                if v@.last() == '/' {
                    assert(v@.subrange(v@.len() - 1, v@.len() as int) =~= seq!['/']);
                }
            }
            r.append("/");
        } else {
            assert(v@.subrange(v@.len() - 1, v@.len() as int) == seq!['/']);
            assert(v@.last() == v@.subrange(v@.len() - 1, v@.len() as int)[0]);
        }
        r.append(name);
        r
    }

    /// The path of the directory.
    pub fn get_ref(&self) -> (r: &str)
        ensures
            r@ == self.view(),
    {
        self.inner.as_str()
    }

    /// A copy of the path of the directory.
    pub fn to_owned_inner(&self) -> (r: String)
        ensures
            r@ == self.view(),
    {
        self.inner.clone()
    }
}

} // verus!
