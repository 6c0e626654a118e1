//! Application identifiers: two identifiers name the same application when
//! they agree after any trailing `.desktop` extensions are removed.

use vstd::prelude::*;
use vstd::string::StrSliceExecFns;
use vstd::string::StringExecFns;

verus! {

/// The characters of the `.desktop` file extension.
pub open spec fn desktop_suffix() -> Seq<char> {
    seq!['.', 'd', 'e', 's', 'k', 't', 'o', 'p']
}

/// Does `s` end in the `.desktop` extension?
pub open spec fn has_desktop_suffix(s: Seq<char>) -> bool {
    s.len() >= 8 && s.subrange(s.len() - 8, s.len() as int) == desktop_suffix()
}

/// `s` with every trailing `.desktop` extension removed.
pub open spec fn strip_desktop(s: Seq<char>) -> Seq<char>
    decreases s.len(),
{
    if has_desktop_suffix(s) {
        strip_desktop(s.subrange(0, s.len() - 8))
    } else {
        s
    }
}

/// Two identifiers name the same application when they agree up to trailing
/// `.desktop` extensions.
pub open spec fn id_matches(a: Seq<char>, b: Seq<char>) -> bool {
    strip_desktop(a) == strip_desktop(b)
}

/// Does `s` end in the eight characters of `.desktop`?
fn ends_with_desktop(s: &str) -> (r: bool)
    ensures
        r == has_desktop_suffix(s@),
{
    let n = s.unicode_len();
    if n < 8 {
        return false;
    }
    let r = s.get_char(n - 8) == '.' && s.get_char(n - 7) == 'd' && s.get_char(n - 6) == 'e'
        && s.get_char(n - 5) == 's' && s.get_char(n - 4) == 'k' && s.get_char(n - 3) == 't'
        && s.get_char(n - 2) == 'o' && s.get_char(n - 1) == 'p';
    proof {
        let sub = s@.subrange(s@.len() - 8, s@.len() as int);
        if r {
            assert(sub =~= desktop_suffix());
        }
        if sub == desktop_suffix() {
            assert(s@[s@.len() - 8] == sub[0]);
            assert(s@[s@.len() - 7] == sub[1]);
            assert(s@[s@.len() - 6] == sub[2]);
            assert(s@[s@.len() - 5] == sub[3]);
            assert(s@[s@.len() - 4] == sub[4]);
            assert(s@[s@.len() - 3] == sub[5]);
            assert(s@[s@.len() - 2] == sub[6]);
            assert(s@[s@.len() - 1] == sub[7]);
        }
    }
    r
}

/// Remove every trailing `.desktop` extension from `s`.
pub fn trim_desktop<'a>(s: &'a str) -> (r: &'a str)
    ensures
        r@ == strip_desktop(s@),
{
    let mut cur: &'a str = s;
    loop
        invariant
            strip_desktop(cur@) == strip_desktop(s@),
        decreases cur@.len(),
    {
        if ends_with_desktop(cur) {
            let n = cur.unicode_len();
            cur = cur.substring_char(0, n - 8);
        } else {
            return cur;
        }
    }
}

/// Do the two identifiers name the same application?
pub fn match_id(a: &str, b: &str) -> (r: bool)
    ensures
        r == id_matches(a@, b@),
{
    let ta = String::from_str(trim_desktop(a));
    let tb = String::from_str(trim_desktop(b));
    ta == tb
}

/// The desktop-entry file name of a launch identifier: the identifier itself
/// when it already carries the `.desktop` extension, otherwise the identifier
/// with the extension appended.
pub fn desktop_file_name(id: &str) -> (r: String)
    ensures
        r@ == if has_desktop_suffix(id@) {
            id@
        } else {
            id@ + desktop_suffix()
        },
{
    let mut r = String::from_str(id);
    if !ends_with_desktop(id) {
        r.append(".desktop");
        proof {
            reveal_strlit(".desktop");
            assert(".desktop"@ =~= desktop_suffix());
        }
    }
    r
}

} // verus!
