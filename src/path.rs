use vstd::prelude::*;
use vstd::string::*;

verus! {

/// The suffix that every derived output name ends with.
pub open spec fn encrypted_suffix() -> Seq<char> {
    seq!['_', 'e', 'n', 'c', 'r', 'y', 'p', 't', 'e', 'd', '.', 'p', 'd', 'f']
}

/// Length of `p` once its trailing separators and trailing `.` components
/// are removed. A leading `/` (the root) and a leading `.` component are kept,
/// so `/` and `.` stay as they are.
pub open spec fn trim_len(p: Seq<char>) -> nat
    decreases p.len(),
{
    if p.len() >= 2 && p.last() == '/' {
        trim_len(p.drop_last())
    } else if p.len() >= 2 && p.last() == '.' && p[p.len() - 2] == '/' {
        trim_len(p.drop_last())
    } else {
        p.len()
    }
}

/// `p` without trailing separators and trailing `.` components: `/tmp/`,
/// `/tmp/.` and `/tmp` name the same directory.
pub open spec fn trimmed(p: Seq<char>) -> Seq<char> {
    p.take(trim_len(p) as int)
}

/// Length of the directory part of `p`: everything up to and including the
/// last `/`, or 0 when `p` holds no `/`.
pub open spec fn dir_len(p: Seq<char>) -> nat
    decreases p.len(),
{
    if p.len() == 0 {
        0
    } else if p.last() == '/' {
        p.len()
    } else {
        dir_len(p.drop_last())
    }
}

/// Index of the last `.` in `name`, or -1 when it holds none.
pub open spec fn last_dot(name: Seq<char>) -> int
    decreases name.len(),
{
    if name.len() == 0 {
        -1
    } else if name.last() == '.' {
        name.len() - 1
    } else {
        last_dot(name.drop_last())
    }
}

/// The file name without its final extension. A leading dot (as in `.hidden`)
/// starts no extension.
pub open spec fn file_stem(name: Seq<char>) -> Seq<char> {
    if last_dot(name) > 0 {
        name.take(last_dot(name))
    } else {
        name
    }
}

/// The last component of a trimmed path `t`: the text after its last `/`.
pub open spec fn last_component(t: Seq<char>) -> Seq<char> {
    t.skip(dir_len(t) as int)
}

/// The stem of the last component of a trimmed path `t`. The components `.`
/// and `..` name no file, and the root has no component after it: their stem
/// is empty.
pub open spec fn output_stem(t: Seq<char>) -> Seq<char> {
    let name = last_component(t);
    if name == seq!['.'] || name == seq!['.', '.'] {
        Seq::empty()
    } else {
        file_stem(name)
    }
}

/// The directory that holds the last component of a trimmed path `t`. A path
/// that is empty or the bare root has no parent, and `.` stands for it; a
/// bare name has the empty parent, the current directory.
pub open spec fn parent_dir(t: Seq<char>) -> Seq<char> {
    if t.len() == 0 || t == seq!['/'] {
        seq!['.']
    } else {
        trimmed(t.take(dir_len(t) as int))
    }
}

/// `name` placed in directory `dir`: a `/` goes between them unless `dir` is
/// empty or already ends in one.
pub open spec fn joined(dir: Seq<char>, name: Seq<char>) -> Seq<char> {
    if dir.len() > 0 && dir.last() != '/' {
        dir + seq!['/'] + name
    } else {
        dir + name
    }
}

/// The path of the encrypted copy of `p`: in the parent directory of `p`, the
/// stem of its last component followed by `_encrypted.pdf`.
pub open spec fn derived_output(p: Seq<char>) -> Seq<char> {
    let t = trimmed(p);
    joined(parent_dir(t), output_stem(t) + encrypted_suffix())
}

/// The last `/` is the one whose successors hold no `/`.
proof fn lemma_dir_len_unique(p: Seq<char>, k: int)
    requires
        0 <= k <= p.len(),
        k > 0 ==> p[k - 1] == '/',
        forall|j: int| k <= j < p.len() ==> p[j] != '/',
    ensures
        dir_len(p) == k,
    decreases p.len(),
{
    if p.len() > 0 && k < p.len() {
        lemma_dir_len_unique(p.drop_last(), k);
    }
}

proof fn lemma_last_dot_unique(name: Seq<char>, k: int)
    requires
        -1 <= k < name.len(),
        k >= 0 ==> name[k] == '.',
        forall|j: int| k < j < name.len() ==> name[j] != '.',
    ensures
        last_dot(name) == k,
    decreases name.len(),
{
    if name.len() > 0 && k < name.len() - 1 {
        lemma_last_dot_unique(name.drop_last(), k);
    }
}

/// The length of `s@.take(n)` once trimmed.
fn trimmed_len(s: &str, n: usize) -> (k: usize)
    requires
        n <= s@.len(),
    ensures
        k == trim_len(s@.take(n as int)),
        k <= n,
{
    let mut k: usize = n;
    while k >= 2 && (s.get_char(k - 1) == '/' || (s.get_char(k - 1) == '.' && s.get_char(k - 2)
        == '/'))
        invariant
            n <= s@.len(),
            k <= n,
            trim_len(s@.take(k as int)) == trim_len(s@.take(n as int)),
        decreases k,
    {
        assert(s@.take(k as int).drop_last() =~= s@.take(k - 1));
        k = k - 1;
    }
    proof {
        let t = s@.take(k as int);
        if k >= 2 {
            assert(t.last() == s@[k - 1]);
            assert(t[t.len() - 2] == s@[k - 2]);
        }
    }
    k
}

/// The length of the directory part of `s@.take(k)`.
fn dir_end(s: &str, k: usize) -> (d: usize)
    requires
        k <= s@.len(),
    ensures
        d == dir_len(s@.take(k as int)),
        d <= k,
{
    let mut d: usize = k;
    while d > 0 && s.get_char(d - 1) != '/'
        invariant
            d <= k,
            k <= s@.len(),
            forall|j: int| d <= j < k ==> s@[j] != '/',
        decreases d,
    {
        d = d - 1;
    }
    proof {
        lemma_dir_len_unique(s@.take(k as int), d as int);
    }
    d
}

/// The stem of a last component `name`, as `output_stem` gives it.
fn stem_of(name: &str) -> (r: &str)
    ensures
        r@ == (if name@ == seq!['.'] || name@ == seq!['.', '.'] {
            Seq::<char>::empty()
        } else {
            file_stem(name@)
        }),
{
    let m: usize = name.unicode_len();
    let all_dots = (m == 1 && name.get_char(0) == '.') || (m == 2 && name.get_char(0) == '.'
        && name.get_char(1) == '.');
    if all_dots {
        assert(name@ =~= seq!['.'] || name@ =~= seq!['.', '.']);
        return name.substring_char(0, 0);
    }
    assert(!(name@ =~= seq!['.']) && !(name@ =~= seq!['.', '.']));
    let mut k: usize = m;
    while k > 0 && name.get_char(k - 1) != '.'
        invariant
            k <= m,
            m == name@.len(),
            forall|j: int| k <= j < m ==> name@[j] != '.',
        decreases k,
    {
        k = k - 1;
    }
    proof {
        lemma_last_dot_unique(name@, k as int - 1);
    }
    let stem_end: usize = if k > 1 {
        k - 1
    } else {
        m
    };
    let r = name.substring_char(0, stem_end);
    assert(r@ =~= file_stem(name@));
    r
}

/// The path at which the encrypted copy of `input` is written.
///
/// The path is read as text and never looked up on disk. Trailing `/` and
/// trailing `.` components are ignored. The copy goes in the parent
/// directory of the last component, named after its stem (the name without
/// its final extension) with `_encrypted.pdf` appended: `/tmp/report` gives
/// `/tmp/report_encrypted.pdf`, and `/tmp/` gives `/tmp_encrypted.pdf`. A bare
/// file name has the empty parent, so `test.pdf` gives `test_encrypted.pdf`;
/// a path with no parent at all (empty, or the root) gets `.`. Spaces and
/// other characters pass through unchanged.
pub fn encrypted_output_path(input: &str) -> (r: String)
    ensures
        r@ == derived_output(input@),
{
    let n: usize = input.unicode_len();
    assert(input@.take(n as int) =~= input@);
    let k = trimmed_len(input, n);
    let d = dir_end(input, k);
    let stem = stem_of(input.substring_char(d, k));
    let ghost t = input@.take(k as int);
    assert(t.skip(d as int) =~= input@.subrange(d as int, k as int));
    let mut out: String;
    if k == 0 || (k == 1 && input.get_char(0) == '/') {
        out = String::from_str(".");
        proof {
            reveal_strlit(".");
            if k == 1 {
                assert(t =~= seq!['/']);
            }
        }
    } else {
        proof {
            if t =~= seq!['/'] {
                assert(t[0] == input@[0]);
            }
            assert(t.take(d as int) =~= input@.take(d as int));
        }
        let pk = trimmed_len(input, d);
        out = String::from_str(input.substring_char(0, pk));
        assert(out@ =~= input@.take(d as int).take(pk as int));
    }
    let ghost dir = out@;
    let ol: usize = out.as_str().unicode_len();
    if ol > 0 && out.as_str().get_char(ol - 1) != '/' {
        out.append("/");
        proof {
            reveal_strlit("/");
        }
    }
    out.append(stem);
    out.append("_encrypted.pdf");
    proof {
        reveal_strlit("_encrypted.pdf");
        assert("_encrypted.pdf"@ =~= encrypted_suffix());
        let name = stem@ + encrypted_suffix();
        if ol > 0 && dir.last() != '/' {
            assert(out@ =~= dir + seq!['/'] + name);
        } else {
            assert(out@ =~= dir + name);
        }
    }
    out
}

} // verus!
