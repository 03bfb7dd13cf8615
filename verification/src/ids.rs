//! Identifiers of chain objects: textual addresses, content identifiers, and
//! the hierarchical subnet identifier.

use vstd::prelude::*;
use vstd::string::StrSliceExecFns;
use vstd::string::StringExecFns;

verus! {

/// A chain epoch (block height).
pub type ChainEpoch = i64;

/// A textual chain address. The facade carries the address as opaque text;
/// where validity matters it is checked through the chain's own address codec.
#[derive(Debug, Clone, PartialEq, Eq)]
pub struct Address {
    text: String,
}

impl View for Address {
    type V = Seq<char>;

    closed spec fn view(&self) -> Seq<char> {
        self.text@
    }
}

impl DeepView for Address {
    type V = Seq<char>;

    open spec fn deep_view(&self) -> Seq<char> {
        self@
    }
}

impl Address {
    /// Wraps address text.
    pub fn new(text: String) -> (r: Address)
        ensures
            r@ == text@,
    {
        Address { text }
    }

    /// The address text.
    pub fn as_text(&self) -> (r: &str)
        ensures
            r@ == self@,
    {
        self.text.as_str()
    }
}

/// A content identifier: a content-addressed reference to an immutable chain
/// object, carried as its canonical text. Over JSON it travels as a small
/// tagged object whose single field `"/"` holds this text.
#[derive(Debug, Clone, PartialEq, Eq)]
pub struct Cid {
    text: String,
}

impl View for Cid {
    type V = Seq<char>;

    closed spec fn view(&self) -> Seq<char> {
        self.text@
    }
}

impl DeepView for Cid {
    type V = Seq<char>;

    open spec fn deep_view(&self) -> Seq<char> {
        self@
    }
}

impl Cid {
    /// Wraps content-identifier text.
    pub fn new(text: String) -> (r: Cid)
        ensures
            r@ == text@,
    {
        Cid { text }
    }

    /// The content-identifier text.
    pub fn as_text(&self) -> (r: &str)
        ensures
            r@ == self@,
    {
        self.text.as_str()
    }
}

/// The canonical path text of a segment sequence: every segment prefixed by
/// one slash, root segment first.
pub open spec fn path_text(segs: Seq<Seq<char>>) -> Seq<char>
    decreases segs.len(),
{
    if segs.len() == 0 {
        Seq::empty()
    } else {
        path_text(segs.drop_last()) + seq!['/'] + segs.last()
    }
}

/// Text that parses as a subnet path: at least one segment, a leading slash,
/// no empty segment (no trailing slash and no two adjacent slashes).
pub open spec fn valid_subnet_text(s: Seq<char>) -> bool {
    &&& s.len() >= 2
    &&& s[0] == '/'
    &&& s[s.len() - 1] != '/'
    &&& forall|j: int| #![trigger s[j]] 0 <= j < s.len() - 1 ==> !(s[j] == '/' && s[j + 1] == '/')
}

/// Law: the canonical text of any nonempty sequence of nonempty, slash-free
/// segments is valid path text. Hence rendering an identifier and parsing the
/// text back always succeeds.
pub proof fn lemma_rendered_path_is_valid(segs: Seq<Seq<char>>)
    requires
        segs.len() >= 1,
        forall|i: int|
            #![trigger segs[i]]
            0 <= i < segs.len() ==> segs[i].len() > 0 && !segs[i].contains('/'),
    ensures
        valid_subnet_text(path_text(segs)),
    decreases segs.len(),
{
    let t = path_text(segs);
    let last = segs.last();
    assert(forall|k: int| 0 <= k < last.len() ==> last[k] != '/') by {
        assert(!last.contains('/'));
    }
    if segs.len() == 1 {
        assert(segs.drop_last() =~= Seq::<Seq<char>>::empty());
        assert(path_text(Seq::<Seq<char>>::empty()) =~= Seq::<char>::empty());
        assert(t =~= seq!['/'] + last);
        assert forall|j: int| #![trigger t[j]] 0 <= j < t.len() - 1 implies !(t[j] == '/' && t[j + 1] == '/') by {
            assert(t[j + 1] == last[j]);
        }
        assert(t[t.len() - 1] == last[last.len() - 1]);
    } else {
        let rest = segs.drop_last();
        assert(forall|i: int|
            #![trigger rest[i]]
            0 <= i < rest.len() ==> rest[i].len() > 0 && !rest[i].contains('/'));
        lemma_rendered_path_is_valid(rest);
        let p = path_text(rest);
        assert(t =~= p + seq!['/'] + last);
        assert(t[0] == p[0]);
        assert forall|j: int| #![trigger t[j]] 0 <= j < t.len() - 1 implies !(t[j] == '/' && t[j + 1] == '/') by {
            if j + 1 < p.len() {
                assert(t[j] == p[j] && t[j + 1] == p[j + 1]);
            } else if j + 1 == p.len() {
                assert(t[j] == p[p.len() - 1]);
            } else if j == p.len() {
                assert(t[j + 1] == last[0]);
            } else {
                assert(t[j] == last[j - p.len() - 1]);
            }
        }
        assert(t[t.len() - 1] == last[last.len() - 1]);
    }
}

/// Law: identifier equality is path equality. Two nonempty sequences of
/// nonempty, slash-free segments that render to the same canonical text are
/// the same sequence.
pub proof fn lemma_path_text_injective(a: Seq<Seq<char>>, b: Seq<Seq<char>>)
    requires
        a.len() >= 1,
        forall|i: int|
            #![trigger a[i]]
            0 <= i < a.len() ==> a[i].len() > 0 && !a[i].contains('/'),
        b.len() >= 1,
        forall|i: int|
            #![trigger b[i]]
            0 <= i < b.len() ==> b[i].len() > 0 && !b[i].contains('/'),
        path_text(a) == path_text(b),
    ensures
        a == b,
    decreases a.len(),
{
    let t = path_text(a);
    let la = a.last();
    let lb = b.last();
    let pa = path_text(a.drop_last());
    let pb = path_text(b.drop_last());
    assert(t =~= pa + seq!['/'] + la);
    assert(t =~= pb + seq!['/'] + lb);
    assert(forall|k: int| 0 <= k < la.len() ==> la[k] != '/') by {
        assert(!la.contains('/'));
    }
    assert(forall|k: int| 0 <= k < lb.len() ==> lb[k] != '/') by {
        assert(!lb.contains('/'));
    }
    // the final slash of the text stands right before the last segment, so
    // both renderings put it at the same index
    if pa.len() < pb.len() {
        assert(t[pb.len() as int] == '/');
        assert(t[pb.len() as int] == la[pb.len() - pa.len() - 1]);
        assert(false);
    }
    if pb.len() < pa.len() {
        assert(t[pa.len() as int] == '/');
        assert(t[pa.len() as int] == lb[pa.len() - pb.len() - 1]);
        assert(false);
    }
    assert(pa.len() == pb.len());
    assert(la.len() == lb.len());
    assert forall|k: int| 0 <= k < la.len() implies la[k] == lb[k] by {
        assert(la[k] == t[pa.len() + 1 + k]);
        assert(lb[k] == t[pb.len() + 1 + k]);
    }
    assert(la =~= lb);
    assert forall|k: int| 0 <= k < pa.len() implies pa[k] == pb[k] by {
        assert(pa[k] == t[k]);
        assert(pb[k] == t[k]);
    }
    assert(pa =~= pb);
    if a.len() == 1 {
        assert(a.drop_last() =~= Seq::<Seq<char>>::empty());
        assert(path_text(Seq::<Seq<char>>::empty()) =~= Seq::<char>::empty());
        if b.len() > 1 {
            assert(forall|i: int|
                #![trigger b.drop_last()[i]]
                0 <= i < b.drop_last().len() ==> b.drop_last()[i].len() > 0 && !(
                b.drop_last()[i]).contains('/'));
            lemma_rendered_path_is_valid(b.drop_last());
            assert(pb.len() >= 2);
            assert(false);
        }
        assert(a =~= b);
    } else {
        if b.len() == 1 {
            assert(b.drop_last() =~= Seq::<Seq<char>>::empty());
            assert(path_text(Seq::<Seq<char>>::empty()) =~= Seq::<char>::empty());
            assert(forall|i: int|
                #![trigger a.drop_last()[i]]
                0 <= i < a.drop_last().len() ==> a.drop_last()[i].len() > 0 && !(
                a.drop_last()[i]).contains('/'));
            lemma_rendered_path_is_valid(a.drop_last());
            assert(pa.len() >= 2);
            assert(false);
        }
        assert(forall|i: int|
            #![trigger a.drop_last()[i]]
            0 <= i < a.drop_last().len() ==> a.drop_last()[i].len() > 0 && !(
            a.drop_last()[i]).contains('/'));
        assert(forall|i: int|
            #![trigger b.drop_last()[i]]
            0 <= i < b.drop_last().len() ==> b.drop_last()[i].len() > 0 && !(
            b.drop_last()[i]).contains('/'));
        lemma_path_text_injective(a.drop_last(), b.drop_last());
        assert(a.len() == b.len());
        assert forall|k: int| 0 <= k < a.len() implies a[k] == b[k] by {
            if k < a.len() - 1 {
                assert(a[k] == a.drop_last()[k]);
                assert(b[k] == b.drop_last()[k]);
            } else {
                assert(a[k] == la && b[k] == lb);
            }
        }
        assert(a =~= b);
    }
}

/// A hierarchical path uniquely identifying a subnet: the addresses of its
/// ancestor actors from the network root down to itself. The parent is the
/// path with its last segment removed; a root subnet has no parent. Immutable
/// once constructed.
#[derive(Debug, Clone, PartialEq, Eq)]
pub struct SubnetID {
    segments: Vec<String>,
}

impl View for SubnetID {
    type V = Seq<Seq<char>>;

    closed spec fn view(&self) -> Seq<Seq<char>> {
        self.segments.deep_view()
    }
}

impl SubnetID {
    /// At least one segment, every segment nonempty and free of slashes.
    pub open spec fn well_formed(&self) -> bool {
        &&& self@.len() >= 1
        &&& forall|i: int|
            #![trigger self@[i]]
            0 <= i < self@.len() ==> self@[i].len() > 0 && !self@[i].contains('/')
    }

    /// Parses a subnet path. Returns `Some` exactly on valid path text, and
    /// the identifier returned renders back to the same text.
    pub fn from_text(s: &str) -> (r: Option<SubnetID>)
        ensures
            r is Some <==> valid_subnet_text(s@),
            r matches Some(id) ==> id.well_formed() && path_text(id@) == s@,
    {
        let n = s.unicode_len();
        if n < 2 {
            return None;
        }
        if s.get_char(0) != '/' {
            return None;
        }
        let mut segments: Vec<String> = Vec::new();
        let mut start: usize = 1;
        let mut i: usize = 1;
        while i < n
            invariant
                n as nat == s@.len(),
                2 <= n,
                s@[0] == '/',
                1 <= start <= i <= n,
                start == 1 || s@[start - 1] == '/',
                forall|j: int| #![trigger s@[j]] start <= j < i ==> s@[j] != '/',
                path_text(segments.deep_view()) == s@.take(start - 1),
                forall|k: int|
                    #![trigger segments.deep_view()[k]]
                    0 <= k < segments.deep_view().len() ==> segments.deep_view()[k].len() > 0
                        && !segments.deep_view()[k].contains('/'),
                forall|j: int|
                    #![trigger s@[j]]
                    0 <= j && j + 1 < i ==> !(s@[j] == '/' && s@[j + 1] == '/'),
            decreases n - i,
        {
            if s.get_char(i) == '/' {
                if i == start {
                    proof {
                        if start == 1 {
                            assert(s@[0] == '/' && s@[1] == '/');
                        } else {
                            assert(s@[start - 1] == '/' && s@[i as int] == '/');
                        }
                    }
                    return None;
                }
                let seg = s.substring_char(start, i);
                let seg_owned = seg.to_owned();
                let ghost segv = seg_owned@;
                let ghost old_deep = segments.deep_view();
                segments.push(seg_owned);
                proof {
                    assert(segments.deep_view() =~= old_deep.push(segv));
                    assert(segments.deep_view().drop_last() =~= old_deep);
                    assert(segv =~= s@.subrange(start as int, i as int));
                    assert forall|k: int| 0 <= k < segv.len() implies segv[k] != '/' by {
                        assert(s@[start + k] != '/');
                    }
                    assert(!segv.contains('/'));
                    assert(s@.take(i as int) =~= s@.take(start - 1) + seq!['/'] + s@.subrange(
                        start as int,
                        i as int,
                    ));
                    assert(path_text(segments.deep_view()) == s@.take(i as int));
                }
                start = i + 1;
            }
            i = i + 1;
        }
        if start == n {
            proof {
                assert(s@[start - 1] == '/');
                assert(s@[n - 1] == '/');
            }
            return None;
        }
        let seg = s.substring_char(start, n);
        let seg_owned = seg.to_owned();
        let ghost segv = seg_owned@;
        let ghost old_deep = segments.deep_view();
        segments.push(seg_owned);
        proof {
            assert(segments.deep_view() =~= old_deep.push(segv));
            assert(segments.deep_view().drop_last() =~= old_deep);
            assert(segv =~= s@.subrange(start as int, n as int));
            assert forall|k: int| 0 <= k < segv.len() implies segv[k] != '/' by {
                assert(s@[start + k] != '/');
            }
            assert(!segv.contains('/'));
            assert(s@.take(n as int) =~= s@.take(start - 1) + seq!['/'] + s@.subrange(
                start as int,
                n as int,
            ));
            assert(s@.take(n as int) =~= s@);
            assert(path_text(segments.deep_view()) == s@);
            assert(s@[n - 1] != '/');
            assert(valid_subnet_text(s@));
        }
        Some(SubnetID { segments })
    }

    /// Renders the identifier as its canonical path text.
    pub fn to_text(&self) -> (r: String)
        ensures
            r@ == path_text(self@),
    {
        let mut s = String::new();
        let mut i: usize = 0;
        while i < self.segments.len()
            invariant
                i <= self.segments.len(),
                self@.len() == self.segments@.len(),
                s@ == path_text(self@.take(i as int)),
            decreases self.segments.len() - i,
        {
            s.append("/");
            s.append(self.segments[i].as_str());
            proof {
                reveal_strlit("/");
                assert(self@.take(i as int + 1).drop_last() =~= self@.take(i as int));
                assert(self@.take(i as int + 1).last() == self@[i as int]);
                assert(s@ =~= path_text(self@.take(i as int + 1)));
            }
            i = i + 1;
        }
        proof {
            assert(self@.take(self.segments.len() as int) =~= self@);
        }
        s
    }

    /// A copy of this identifier with the same segments.
    pub fn duplicate(&self) -> (r: SubnetID)
        ensures
            r@ == self@,
    {
        let mut segs: Vec<String> = Vec::new();
        let mut i: usize = 0;
        while i < self.segments.len()
            invariant
                self@.len() == self.segments@.len(),
                i <= self.segments@.len(),
                segs.deep_view() == self@.take(i as int),
            decreases self.segments@.len() - i,
        {
            let ghost old_deep = segs.deep_view();
            segs.push(self.segments[i].clone());
            proof {
                assert(segs.deep_view() =~= old_deep.push(self@[i as int]));
                assert(segs.deep_view() =~= self@.take(i as int + 1));
            }
            i = i + 1;
        }
        proof {
            assert(self@.take(self.segments@.len() as int) =~= self@);
        }
        SubnetID { segments: segs }
    }

    /// The number of path segments.
    pub fn segment_count(&self) -> (r: usize)
        ensures
            r as nat == self@.len(),
    {
        self.segments.len()
    }

    /// The parent identifier: the path with its last segment removed. A root
    /// subnet (a single segment) has none.
    pub fn parent(&self) -> (r: Option<SubnetID>)
        ensures
            r is Some <==> self@.len() > 1,
            r matches Some(p) ==> p@ == self@.drop_last(),
            r matches Some(p) ==> (self.well_formed() ==> p.well_formed()),
    {
        if self.segments.len() <= 1 {
            return None;
        }
        let last = self.segments.len() - 1;
        let mut segs: Vec<String> = Vec::new();
        let mut i: usize = 0;
        while i < last
            invariant
                last == self.segments@.len() - 1,
                self@.len() == self.segments@.len(),
                i <= last,
                segs.deep_view() == self@.take(i as int),
            decreases last - i,
        {
            let ghost old_deep = segs.deep_view();
            segs.push(self.segments[i].clone());
            proof {
                assert(segs.deep_view() =~= old_deep.push(self@[i as int]));
                assert(segs.deep_view() =~= self@.take(i as int + 1));
            }
            i = i + 1;
        }
        proof {
            assert(self@.take(last as int) =~= self@.drop_last());
        }
        Some(SubnetID { segments: segs })
    }

    /// Character-exact equality of two identifiers.
    pub fn same_id(&self, other: &SubnetID) -> (r: bool)
        ensures
            r == (self@ == other@),
    {
        if self.segments.len() != other.segments.len() {
            proof {
                assert(self@.len() != other@.len());
            }
            return false;
        }
        let mut i: usize = 0;
        while i < self.segments.len()
            invariant
                self.segments@.len() == other.segments@.len(),
                self@.len() == self.segments@.len(),
                other@.len() == other.segments@.len(),
                i <= self.segments@.len(),
                forall|j: int| #![trigger self@[j]] 0 <= j < i ==> self@[j] == other@[j],
            decreases self.segments.len() - i,
        {
            if !crate::json::str_eq(self.segments[i].as_str(), other.segments[i].as_str()) {
                proof {
                    assert(self@[i as int] != other@[i as int]);
                }
                return false;
            }
            i = i + 1;
        }
        proof {
            assert(self@ =~= other@);
        }
        true
    }
}

} // verus!
