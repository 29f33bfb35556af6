use vstd::prelude::*;

verus! {

/// `base` and `rest` joined by one separator (none added where `base`
/// already ends with one).
pub open spec fn join_path(base: Seq<char>, rest: Seq<char>) -> Seq<char> {
    if base.len() > 0 && base.last() == '/' {
        base + rest
    } else {
        base + seq!['/'] + rest
    }
}

/// A path with a leading `~` component taken against the home directory:
/// `~` alone is the home directory, `~/rest` is `rest` inside it; any other
/// path (`~user` too) is left as it is.
pub open spec fn expanded(path: Seq<char>, home: Seq<char>) -> Seq<char> {
    if path == seq!['~'] {
        home
    } else if path.len() >= 2 && path[0] == '~' && path[1] == '/' {
        join_path(home, path.subrange(2, path.len() as int))
    } else {
        path
    }
}

/// Expands a leading `~` in `path` against the home directory `home`.
pub fn expand_home_dir(path: &str, home: &str) -> (r: String)
    ensures
        r@ == expanded(path@, home@),
{
    let n = path.unicode_len();
    if n == 1 && path.get_char(0) == '~' {
        assert(path@ =~= seq!['~']);
        return String::from_str(home);
    }
    if n >= 2 && path.get_char(0) == '~' && path.get_char(1) == '/' {
        let rest = path.substring_char(2, n);
        let mut r = String::from_str(home);
        let hl = home.unicode_len();
        if !(hl > 0 && home.get_char(hl - 1) == '/') {
            proof {
                reveal_strlit("/");
            }
            r.append("/");
        }
        r.append(rest);
        return r;
    }
    String::from_str(path)
}

} // verus!
