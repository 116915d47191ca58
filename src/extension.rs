use vstd::prelude::*;

verus! {

/// The document formats a configuration file may be written in.
#[derive(Debug, Clone, Copy, PartialEq, Eq, Structural)]
pub enum Format {
    Yaml,
    Json,
}

/// The dot at index `i` opens the extension of path `p`: no other dot and no
/// path separator follows it.
pub open spec fn dot_opens_extension(p: Seq<char>, i: int) -> bool {
    &&& 0 <= i < p.len()
    &&& p[i] == '.'
    &&& forall|j: int| i < j < p.len() ==> p[j] != '.' && p[j] != '/'
}

/// The extension of a path: what follows the last `.` of its final segment,
/// or nothing when that segment holds no dot.
pub open spec fn extension_of(p: Seq<char>) -> Option<Seq<char>> {
    if exists|i: int| dot_opens_extension(p, i) {
        let i = choose|i: int| dot_opens_extension(p, i);
        Some(p.subrange(i + 1, p.len() as int))
    } else {
        None
    }
}

/// The format that an extension selects: `yaml` and `yml` name YAML, `json`
/// names JSON, and nothing else is supported.
pub open spec fn format_of_extension(e: Seq<char>) -> Option<Format> {
    if e == seq!['y', 'a', 'm', 'l'] || e == seq!['y', 'm', 'l'] {
        Some(Format::Yaml)
    } else if e == seq!['j', 's', 'o', 'n'] {
        Some(Format::Json)
    } else {
        None
    }
}

/// The format that a path's extension selects, if any.
pub open spec fn format_of(p: Seq<char>) -> Option<Format> {
    match extension_of(p) {
        Some(e) => format_of_extension(e),
        None => None,
    }
}

proof fn lemma_extension_dot_unique(p: Seq<char>, i: int, k: int)
    requires
        dot_opens_extension(p, i),
        dot_opens_extension(p, k),
    ensures
        i == k,
{
    if i < k {
        assert(p[k] != '.');
    } else if k < i {
        assert(p[i] != '.');
    }
}

/// Whether two texts hold the same characters.
fn text_equals(a: &str, b: &str) -> (r: bool)
    ensures
        r == (a@ == b@),
{
    let n = a.unicode_len();
    if n != b.unicode_len() {
        return false;
    }
    let mut i: usize = 0;
    while i < n
        invariant
            n == a@.len(),
            n == b@.len(),
            i <= n,
            forall|j: int| 0 <= j < i ==> a@[j] == b@[j],
        decreases n - i,
    {
        if a.get_char(i) != b.get_char(i) {
            return false;
        }
        i = i + 1;
    }
    assert(a@ =~= b@);
    true
}

/// The format selected by the extension of `path`: YAML for `.yaml` and
/// `.yml`, JSON for `.json`, and `None` for any other extension or none.
pub fn format_of_path(path: &str) -> (r: Option<Format>)
    ensures
        r == format_of(path@),
{
    let n = path.unicode_len();
    let mut i: usize = n;
    while i > 0
        invariant
            n == path@.len(),
            i <= n,
            forall|j: int| i <= j < n ==> path@[j] != '.' && path@[j] != '/',
        decreases i,
    {
        let c = path.get_char(i - 1);
        if c == '/' {
            assert forall|k: int| !dot_opens_extension(path@, k) by {
                if dot_opens_extension(path@, k) && k < i - 1 {
                    assert(path@[i - 1] != '/');
                }
            }
            return None;
        }
        if c == '.' {
            assert(dot_opens_extension(path@, i - 1));
            proof {
                let k = choose|k: int| dot_opens_extension(path@, k);
                lemma_extension_dot_unique(path@, i - 1, k);
            }
            let ext = path.substring_char(i, n);
            proof {
                reveal_strlit("yaml");
                reveal_strlit("yml");
                reveal_strlit("json");
                assert("yaml"@ =~= seq!['y', 'a', 'm', 'l']);
                assert("yml"@ =~= seq!['y', 'm', 'l']);
                assert("json"@ =~= seq!['j', 's', 'o', 'n']);
                assert(extension_of(path@) == Some(ext@));
            }
            if text_equals(ext, "yaml") || text_equals(ext, "yml") {
                return Some(Format::Yaml);
            } else if text_equals(ext, "json") {
                return Some(Format::Json);
            } else {
                return None;
            }
        }
        i = i - 1;
    }
    assert forall|k: int| !dot_opens_extension(path@, k) by {}
    None
}

} // verus!
