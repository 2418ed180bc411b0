//! Browsing saved snapshots: which file names count as images, and the
//! selection state of the gallery overlay.  Reading the capture directory,
//! sorting the names and loading pixels stays with the file-I/O
//! collaborator; what is kept and where the cursor moves is decided here.

use vstd::prelude::*;
use vstd::multiset::Multiset;
use vstd::string::StrSliceExecFns;

verus! {

/// Whether the character is an ASCII capital letter.
pub open spec fn is_ascii_upper(c: char) -> bool {
    65 <= c as int <= 90
}

/// Case-insensitive equality of two characters, folding ASCII letters.
pub open spec fn char_eq_ci(a: char, b: char) -> bool {
    ||| a == b
    ||| (is_ascii_upper(a) && a as int + 32 == b as int)
    ||| (is_ascii_upper(b) && b as int + 32 == a as int)
}

/// Case-insensitive equality of two character sequences.
pub open spec fn seq_eq_ci(a: Seq<char>, b: Seq<char>) -> bool {
    a.len() == b.len() && forall|i: int| 0 <= i < a.len() ==> char_eq_ci(a[i], b[i])
}

/// The extensions the gallery shows: the snapshot format this system
/// writes, and the common photo formats.
pub open spec fn spec_is_image_ext(ext: Seq<char>) -> bool {
    ||| seq_eq_ci(ext, "png"@)
    ||| seq_eq_ci(ext, "jpg"@)
    ||| seq_eq_ci(ext, "jpeg"@)
    ||| seq_eq_ci(ext, "ppm"@)
}

/// Whether a file name carries an image extension: the characters after
/// its last dot, compared without regard to case.
pub open spec fn spec_is_image_name(name: Seq<char>) -> bool {
    exists|k: int|
        0 <= k < name.len() && name[k] == '.' && (forall|j: int|
            k < j < name.len() ==> name[j] != '.') && spec_is_image_ext(
            name.subrange(k + 1, name.len() as int),
        )
}

/// Compare two characters, folding ASCII case.
fn char_eq_ci_exec(a: char, b: char) -> (r: bool)
    ensures
        r == char_eq_ci(a, b),
{
    let av = a as u32;
    let bv = b as u32;
    av == bv || (65 <= av && av <= 90 && av + 32 == bv) || (65 <= bv && bv <= 90 && bv + 32 == av)
}

/// Whether the tail of `name` from `start` equals `pat`, folding case.
fn tail_eq_ci(name: &str, start: usize, pat: &str) -> (r: bool)
    requires
        start <= name@.len(),
    ensures
        r == seq_eq_ci(name@.subrange(start as int, name@.len() as int), pat@),
{
    let n = name.unicode_len();
    let m = pat.unicode_len();
    if n - start != m {
        return false;
    }
    let mut i: usize = 0;
    while i < m
        invariant
            i <= m,
            n == name@.len(),
            m == pat@.len(),
            start + m == n,
            forall|j: int| 0 <= j < i ==> char_eq_ci(name@[start + j], pat@[j]),
        decreases m - i,
    {
        if !char_eq_ci_exec(name.get_char(start + i), pat.get_char(i)) {
            return false;
        }
        i = i + 1;
    }
    true
}

/// Whether a file name carries an image extension.
pub fn is_image_file_name(name: &str) -> (r: bool)
    ensures
        r == spec_is_image_name(name@),
{
    let n = name.unicode_len();
    let mut i: usize = n;
    while i > 0
        invariant
            i <= n,
            n == name@.len(),
            forall|j: int| i <= j < n ==> name@[j] != '.',
        decreases i,
    {
        let c = name.get_char(i - 1);
        if c == '.' {
            let matched = tail_eq_ci(name, i, "png") || tail_eq_ci(name, i, "jpg") || tail_eq_ci(
                name,
                i,
                "jpeg",
            ) || tail_eq_ci(name, i, "ppm");
            proof {
                // The dot at i - 1 is the last one, so it is the only
                // candidate position the definition can use.
                assert forall|k: int|
                    0 <= k < name@.len() && name@[k] == '.' && (forall|j: int|
                        k < j < name@.len() ==> name@[j] != '.') implies k == i - 1 by {
                    if k > i - 1 {
                        assert(name@[k] != '.');
                    }
                    if k < i - 1 {
                        assert(name@[i - 1] != '.');
                    }
                }
            }
            return matched;
        }
        i = i - 1;
    }
    proof {
        if spec_is_image_name(name@) {
            let k = choose|k: int|
                0 <= k < name@.len() && name@[k] == '.' && (forall|j: int|
                    k < j < name@.len() ==> name@[j] != '.') && spec_is_image_ext(
                    name@.subrange(k + 1, name@.len() as int),
                );
            assert(name@[k] != '.');
        }
    }
    false
}

/// Code-point order on names, the order strings compare in: a name that
/// is a prefix of another comes first, otherwise the first differing
/// character decides.
pub open spec fn chars_le(x: Seq<char>, y: Seq<char>) -> bool
    decreases x.len(),
{
    if x.len() == 0 {
        true
    } else if y.len() == 0 {
        false
    } else if (x[0] as int) < (y[0] as int) {
        true
    } else if (x[0] as int) > (y[0] as int) {
        false
    } else {
        chars_le(x.drop_first(), y.drop_first())
    }
}

/// Descending in the order above — newest first for names that lead with
/// a timestamp.
pub open spec fn names_sorted_desc(s: Seq<String>) -> bool {
    forall|i: int, j: int| 0 <= i < j < s.len() ==> chars_le(s[j]@, s[i]@)
}

/// Dropping an equal prefix of both names leaves their order unchanged.
proof fn lemma_chars_le_skip(x: Seq<char>, y: Seq<char>, i: int)
    requires
        0 <= i <= x.len(),
        i <= y.len(),
        forall|j: int| 0 <= j < i ==> (x[j] as int) == (y[j] as int),
    ensures
        chars_le(x, y) == chars_le(x.skip(i), y.skip(i)),
    decreases i,
{
    if i == 0 {
        assert(x.skip(0) =~= x);
        assert(y.skip(0) =~= y);
    } else {
        assert(forall|j: int|
            0 <= j < i - 1 ==> (x.drop_first()[j] as int) == (y.drop_first()[j] as int));
        lemma_chars_le_skip(x.drop_first(), y.drop_first(), i - 1);
        assert(x.drop_first().skip(i - 1) =~= x.skip(i));
        assert(y.drop_first().skip(i - 1) =~= y.skip(i));
    }
}

/// The order is total: of two names, one is at most the other.
proof fn lemma_chars_le_total(x: Seq<char>, y: Seq<char>)
    ensures
        chars_le(x, y) || chars_le(y, x),
    decreases x.len(),
{
    if x.len() > 0 && y.len() > 0 && (x[0] as int) == (y[0] as int) {
        lemma_chars_le_total(x.drop_first(), y.drop_first());
    }
}

/// The order is transitive.
proof fn lemma_chars_le_trans(x: Seq<char>, y: Seq<char>, z: Seq<char>)
    requires
        chars_le(x, y),
        chars_le(y, z),
    ensures
        chars_le(x, z),
    decreases x.len(),
{
    if x.len() > 0 {
        if (x[0] as int) == (y[0] as int) && (y[0] as int) == (z[0] as int) {
            lemma_chars_le_trans(x.drop_first(), y.drop_first(), z.drop_first());
        }
    }
}

/// Compare two names in the code-point order.
fn name_le(a: &String, b: &String) -> (r: bool)
    ensures
        r == chars_le(a@, b@),
{
    let an = a.as_str().unicode_len();
    let bn = b.as_str().unicode_len();
    let mut i: usize = 0;
    while i < an && i < bn
        invariant
            an == a@.len(),
            bn == b@.len(),
            i <= an,
            i <= bn,
            forall|j: int| 0 <= j < i ==> (a@[j] as int) == (b@[j] as int),
        decreases an - i,
    {
        let ca = a.as_str().get_char(i);
        let cb = b.as_str().get_char(i);
        if (ca as u32) < (cb as u32) {
            proof {
                lemma_chars_le_skip(a@, b@, i as int);
                assert(a@.skip(i as int)[0] == a@[i as int]);
                assert(b@.skip(i as int)[0] == b@[i as int]);
            }
            return true;
        }
        if (ca as u32) > (cb as u32) {
            proof {
                lemma_chars_le_skip(a@, b@, i as int);
                assert(a@.skip(i as int)[0] == a@[i as int]);
                assert(b@.skip(i as int)[0] == b@[i as int]);
            }
            return false;
        }
        i = i + 1;
    }
    proof {
        lemma_chars_le_skip(a@, b@, i as int);
    }
    an <= bn
}

/// Where a name joins a descending list: the first position whose entry
/// is at most the new name.
fn insert_position(out: &Vec<String>, x: &String) -> (k: usize)
    ensures
        k <= out@.len(),
        forall|j: int| 0 <= j < k ==> !chars_le(out@[j]@, x@),
        k < out@.len() ==> chars_le(out@[k as int]@, x@),
{
    let mut k: usize = 0;
    while k < out.len()
        invariant
            k <= out@.len(),
            forall|j: int| 0 <= j < k ==> !chars_le(out@[j]@, x@),
        decreases out@.len() - k,
    {
        if name_le(&out[k], x) {
            return k;
        }
        k = k + 1;
    }
    k
}

/// Sort snapshot names newest first: descending in the code-point order,
/// so names that lead with a timestamp come latest first.  The result
/// holds exactly the given names.
pub fn sort_newest_first(names: Vec<String>) -> (r: Vec<String>)
    ensures
        names_sorted_desc(r@),
        r@.to_multiset() == names@.to_multiset(),
        r@.len() == names@.len(),
{
    broadcast use vstd::seq_lib::group_to_multiset_ensures;
    broadcast use vstd::multiset::group_multiset_axioms;

    let mut rest = names;
    let mut out: Vec<String> = Vec::new();
    proof {
        assert(out@.to_multiset() =~= Multiset::<String>::empty());
        assert(out@.to_multiset().add(rest@.to_multiset()) =~= rest@.to_multiset());
    }
    while rest.len() > 0
        invariant
            names_sorted_desc(out@),
            out@.to_multiset().add(rest@.to_multiset()) == names@.to_multiset(),
            out@.len() + rest@.len() == names@.len(),
        decreases rest@.len(),
    {
        let ghost rest_pre = rest@;
        let x = match rest.pop() {
            Some(v) => v,
            None => unreached(),
        };
        proof {
            broadcast use vstd::seq_lib::group_to_multiset_ensures;
            broadcast use vstd::multiset::group_multiset_axioms;

            assert(rest_pre =~= rest@.push(x));
            assert(rest_pre.to_multiset() == rest@.push(x).to_multiset());
        }
        let ghost pre = out@;
        let k = insert_position(&out, &x);
        proof {
            assert forall|j: int| 0 <= j < k implies chars_le(x@, pre[j]@) by {
                lemma_chars_le_total(pre[j]@, x@);
            }
        }
        out.insert(k, x);
        proof {
            broadcast use vstd::seq_lib::group_to_multiset_ensures;
            broadcast use vstd::multiset::group_multiset_axioms;

            pre.insert_ensures(k as int, x);
            let s2 = out@;
            assert forall|i: int, j: int| 0 <= i < j < s2.len() implies chars_le(
                s2[j]@,
                s2[i]@,
            ) by {
                if j < k {
                    assert(s2[i] == pre[i] && s2[j] == pre[j]);
                } else if j == k {
                    assert(s2[j] == x && s2[i] == pre[i]);
                } else if i < k {
                    assert(s2[i] == pre[i] && s2[j] == pre[j - 1]);
                    assert(chars_le(pre[j - 1]@, pre[i]@));
                } else if i == k {
                    assert(s2[i] == x && s2[j] == pre[j - 1]);
                    assert(chars_le(pre[k as int]@, x@));
                    if j - 1 > k {
                        assert(chars_le(pre[j - 1]@, pre[k as int]@));
                        lemma_chars_le_trans(pre[j - 1]@, pre[k as int]@, x@);
                    }
                } else {
                    assert(s2[i] == pre[i - 1] && s2[j] == pre[j - 1]);
                }
            }
            assert(pre.insert(k as int, x).to_multiset() == pre.to_multiset().insert(x));
            assert(rest_pre.to_multiset() == rest@.to_multiset().insert(x));
            assert(pre.to_multiset().add(rest_pre.to_multiset()) == names@.to_multiset());
            assert(out@.to_multiset().add(rest@.to_multiset()) =~= names@.to_multiset());
        }
    }
    proof {
        broadcast use vstd::seq_lib::group_to_multiset_ensures;
        broadcast use vstd::multiset::group_multiset_axioms;

        assert(rest@ =~= Seq::<String>::empty());
        assert(rest@.to_multiset() =~= Multiset::<String>::empty());
        assert(out@.to_multiset().add(rest@.to_multiset()) =~= out@.to_multiset());
    }
    out
}

/// The gallery overlay's state: the snapshot names, ordered newest first,
/// and which one the cursor is on.
pub struct Gallery {
    pub images: Vec<String>,
    pub index: usize,
    pub visible: bool,
}

impl Gallery {
    /// The cursor stays inside the list, and rests at 0 on an empty one.
    pub open spec fn wf(&self) -> bool {
        if self.images@.len() == 0 {
            self.index == 0
        } else {
            self.index < self.images@.len()
        }
    }

    /// A closed, empty gallery.
    pub fn new() -> (g: Gallery)
        ensures
            g.wf(),
            g.images@.len() == 0,
            g.index == 0,
            !g.visible,
    {
        Gallery { images: Vec::new(), index: 0, visible: false }
    }

    /// Open the overlay on a freshly listed set of snapshots: the names
    /// are put newest first and the cursor rests on the newest.
    pub fn open_gallery(&mut self, images: Vec<String>)
        ensures
            final(self).wf(),
            names_sorted_desc(final(self).images@),
            final(self).images@.to_multiset() == images@.to_multiset(),
            final(self).images@.len() == images@.len(),
            final(self).index == 0,
            final(self).visible,
    {
        self.images = sort_newest_first(images);
        self.index = 0;
        self.visible = true;
    }

    /// Close the overlay; the listing and the cursor stay where they were.
    pub fn close_gallery(&mut self)
        ensures
            final(self).images@ == old(self).images@,
            final(self).index == old(self).index,
            !final(self).visible,
            old(self).wf() ==> final(self).wf(),
    {
        self.visible = false;
    }

    /// Move the cursor to the next snapshot, wrapping at the end; an empty
    /// gallery stays as it is.
    pub fn gallery_next(&mut self)
        requires
            old(self).wf(),
        ensures
            final(self).wf(),
            final(self).images@ == old(self).images@,
            final(self).visible == old(self).visible,
            old(self).images@.len() == 0 ==> final(self).index == 0,
            old(self).images@.len() > 0 ==> final(self).index == (old(self).index + 1) % old(
                self,
            ).images@.len() as int,
    {
        if self.images.len() == 0 {
            return ;
        }
        self.index = (self.index + 1) % self.images.len();
    }

    /// Move the cursor to the previous snapshot, wrapping at the start; an
    /// empty gallery stays as it is.
    pub fn gallery_previous(&mut self)
        requires
            old(self).wf(),
        ensures
            final(self).wf(),
            final(self).images@ == old(self).images@,
            final(self).visible == old(self).visible,
            old(self).images@.len() == 0 ==> final(self).index == 0,
            old(self).images@.len() > 0 ==> final(self).index == if old(self).index == 0 {
                old(self).images@.len() - 1
            } else {
                old(self).index - 1
            },
    {
        if self.images.len() == 0 {
            return ;
        }
        if self.index == 0 {
            self.index = self.images.len() - 1;
        } else {
            self.index = self.index - 1;
        }
    }

    /// The snapshot the cursor is on, when there is one.
    pub fn current(&self) -> (r: Option<&String>)
        requires
            self.wf(),
        ensures
            match r {
                Some(name) => self.images@.len() > 0 && name@ == self.images@[self.index as int]@,
                None => self.images@.len() == 0,
            },
    {
        if self.images.len() == 0 {
            None
        } else {
            Some(&self.images[self.index])
        }
    }
}

} // verus!
