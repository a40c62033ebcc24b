//! The one decision the presentation layer's syntax highlighter needs from
//! the core: which language extension to highlight the document as.

use vstd::prelude::*;

verus! {

/// Where the extension of `path` starts, if it has one: the index right
/// after the last `'.'` of the final path component. A component that has
/// no `'.'`, or only a leading one (a hidden file), has no extension.
pub open spec fn ext_index(path: Seq<char>) -> Option<int>
    decreases path.len(),
{
    if path.len() == 0 {
        None
    } else if path.last() == '/' {
        None
    } else if path.last() == '.' {
        if path.len() == 1 || path[path.len() - 2] == '/' {
            None
        } else {
            Some(path.len() as int)
        }
    } else {
        ext_index(path.drop_last())
    }
}

/// The extension the highlighter should use for the document at `path`:
/// the characters after the last `'.'` of the final path component, with
/// Rust source as the fallback when there is none.
pub fn highlight_extension(path: &str) -> (ext: &str)
    ensures
        match ext_index(path@) {
            Some(j) => ext@ == path@.subrange(j, path@.len() as int),
            None => ext@ == "rs"@,
        },
{
    let n = path.unicode_len();
    let mut i: usize = n;
    proof {
        assert(path@.subrange(0, n as int) =~= path@);
    }
    loop
        invariant
            n == path@.len(),
            i <= n,
            ext_index(path@) == ext_index(path@.subrange(0, i as int)),
        decreases i,
    {
        if i == 0 {
            return "rs";
        }
        let c = path.get_char(i - 1);
        proof {
            assert(path@.subrange(0, i as int).last() == path@[i - 1]);
        }
        if c == '/' {
            return "rs";
        }
        if c == '.' {
            if i == 1 {
                return "rs";
            }
            let before = path.get_char(i - 2);
            proof {
                assert(path@.subrange(0, i as int)[i - 2] == path@[i - 2]);
            }
            if before == '/' {
                return "rs";
            }
            return path.substring_char(i, n);
        }
        proof {
            assert(path@.subrange(0, i as int).drop_last() =~= path@.subrange(0, i - 1));
        }
        i = i - 1;
    }
}

} // verus!
