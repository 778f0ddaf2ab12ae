use vstd::prelude::*;
use crate::errors::RpcError;
use vstd::string::StrSliceExecFns;
use vstd::string::StringExecFns;

verus! {

/// A chain identifier segment may hold ASCII letters and digits only.
pub open spec fn valid_seg_char(c: char) -> bool {
    ('0' <= c && c <= '9') || ('a' <= c && c <= 'z') || ('A' <= c && c <= 'Z')
}

/// One step of a subnet path: a non-empty run of segment characters.
pub open spec fn valid_segment(seg: Seq<char>) -> bool {
    seg.len() > 0 && (forall|i: int| 0 <= i < seg.len() ==> valid_seg_char(#[trigger] seg[i]))
}

/// A subnet identifier is a non-empty path of valid segments.
pub open spec fn valid_segments(segs: Seq<Seq<char>>) -> bool {
    segs.len() > 0 && (forall|i: int| 0 <= i < segs.len() ==> valid_segment(#[trigger] segs[i]))
}

/// The canonical rendering of a path: a '/' before each segment.
pub open spec fn render(segs: Seq<Seq<char>>) -> Seq<char>
    decreases segs.len(),
{
    if segs.len() == 0 {
        Seq::<char>::empty()
    } else {
        render(segs.drop_last()).push('/') + segs.last()
    }
}

/// Exactly the strings that `SubnetID::parse` accepts: they start with a
/// separator, every character is a separator or a segment character, and
/// every separator is followed by a segment character.
pub open spec fn path_ok(s: Seq<char>) -> bool {
    &&& s.len() >= 2
    &&& s[0] == '/'
    &&& forall|i: int| 0 <= i < s.len() ==> (s[i] == '/' || valid_seg_char(#[trigger] s[i]))
    &&& forall|i: int|
        0 <= i < s.len() && #[trigger] s[i] == '/' ==> i + 1 < s.len() && s[i + 1] != '/'
}

/// The position of a subnet in the parent-child tree: the path of chain
/// identifiers from the root chain down to the subnet.
#[derive(Debug)]
pub struct SubnetID {
    segments: Vec<String>,
}

impl View for SubnetID {
    type V = Seq<Seq<char>>;

    closed spec fn view(&self) -> Seq<Seq<char>> {
        self.segments.deep_view()
    }
}

impl SubnetID {
    /// Well-formed identifiers hold at least one segment, each valid.
    pub open spec fn wf(&self) -> bool {
        valid_segments(self@)
    }

    /// Parses the canonical path form, accepting exactly the strings
    /// described by `path_ok` and returning the path whose rendering is
    /// the input itself.
    pub fn parse(s: &str) -> (r: Result<SubnetID, RpcError>)
        ensures
            r is Ok <==> path_ok(s@),
            r matches Ok(id) ==> id.wf() && render(id@) == s@,
            r matches Err(e) ==> e is ParseError,
    {
        let n = s.unicode_len();
        if n < 2 {
            return Err(RpcError::ParseError);
        }
        if !s.is_ascii() {
            proof {
                lemma_path_ok_ascii(s@);
            }
            return Err(RpcError::ParseError);
        }
        if s.get_char(0) != '/' {
            return Err(RpcError::ParseError);
        }
        let mut segments: Vec<String> = Vec::new();
        let mut i: usize = 1;
        loop
            invariant
                s.is_ascii(),
                n == s@.len(),
                2 <= n,
                1 <= i <= n,
                s@[0] == '/',
                s@[i - 1] == '/',
                valid_segments_all(segments.deep_view()),
                render(segments.deep_view()) == s@.subrange(0, i - 1),
                forall|k: int| 0 <= k < i ==> (s@[k] == '/' || valid_seg_char(#[trigger] s@[k])),
                forall|k: int|
                    0 <= k < i - 1 && #[trigger] s@[k] == '/' ==> k + 1 < n && s@[k + 1] != '/',
            decreases n - i,
        {
            if i == n {
                // a trailing separator leaves an empty final segment
                assert(!path_ok(s@)) by {
                    assert(s@[i - 1] == '/' && !(i - 1 + 1 < s@.len()));
                }
                return Err(RpcError::ParseError);
            }
            let mut j: usize = i;
            while j < n && s.get_char(j) != '/'
                invariant
                    s.is_ascii(),
                    n == s@.len(),
                    i <= j <= n,
                    i < n,
                    forall|k: int| i <= k < j ==> valid_seg_char(#[trigger] s@[k]),
                    forall|k: int| i <= k < j ==> s@[k] != '/',
                decreases n - j,
            {
                let c = s.get_char(j);
                if !(('0' <= c && c <= '9') || ('a' <= c && c <= 'z') || ('A' <= c && c <= 'Z'))
                {
                    assert(!path_ok(s@)) by {
                        assert(s@[j as int] != '/' && !valid_seg_char(s@[j as int]));
                    }
                    return Err(RpcError::ParseError);
                }
                j += 1;
            }
            assert(j == n || s@[j as int] == '/');
            // here every character of s[i..j] is a segment character and
            // either j == n or s[j] is a separator
            if j == i {
                // two separators in a row leave an empty segment
                assert(!path_ok(s@)) by {
                    assert(s@[i - 1] == '/' && s@[i as int] == '/');
                }
                return Err(RpcError::ParseError);
            }
            let seg = s.substring_ascii(i, j);
            let ghost old_segs = segments.deep_view();
            segments.push(seg.to_owned());
            proof {
                let new_segs = segments.deep_view();
                assert(new_segs =~= old_segs.push(s@.subrange(i as int, j as int)));
                assert(new_segs.drop_last() =~= old_segs);
                assert(render(new_segs) =~= s@.subrange(0, j as int)) by {
                    assert(render(new_segs) == render(old_segs).push('/') + s@.subrange(
                        i as int,
                        j as int,
                    ));
                }
            }
            if j == n {
                proof {
                    assert(render(segments.deep_view()) =~= s@);
                    assert(path_ok(s@)) by {
                        assert forall|k: int|
                            0 <= k < s@.len() && #[trigger] s@[k] == '/' implies k + 1 < s@.len()
                            && s@[k + 1] != '/' by {
                            if k == i - 1 {
                                assert(valid_seg_char(s@[i as int]));
                                assert('/' as u32 == 47);
                            }
                        }
                    }
                    assert(valid_segments(segments.deep_view()));
                }
                return Ok(SubnetID { segments });
            }
            // s[j] is a separator: the next segment starts after it
            proof {
                assert forall|k: int|
                    0 <= k < j && #[trigger] s@[k] == '/' implies k + 1 < n && s@[k + 1] != '/' by {
                    if k == i - 1 {
                        assert(valid_seg_char(s@[i as int]));
                        assert('/' as u32 == 47);
                    }
                }
            }
            i = j + 1;
        }
    }

    /// The canonical rendering; parsing it back yields this identifier.
    pub fn to_string(&self) -> (r: String)
        requires
            self.wf(),
        ensures
            r@ == render(self@),
    {
        let mut out = String::new();
        let mut i: usize = 0;
        proof {
            reveal_strlit("/");
            assert(self@.subrange(0, 0) =~= Seq::<Seq<char>>::empty());
        }
        while i < self.segments.len()
            invariant
                i <= self.segments.len(),
                out@ == render(self@.subrange(0, i as int)),
            decreases self.segments.len() - i,
        {
            let ghost prefix = self@.subrange(0, i as int);
            out.append("/");
            out.append(self.segments[i].as_str());
            proof {
                reveal_strlit("/");
                let next = self@.subrange(0, i + 1);
                assert(next.drop_last() =~= prefix);
                assert(out@ =~= render(prefix).push('/') + self@[i as int]);
            }
            i += 1;
        }
        proof {
            assert(self@.subrange(0, self.segments.len() as int) =~= self@);
        }
        out
    }

    /// The path with its last segment dropped; the root has no parent.
    pub fn parent(&self) -> (r: Option<SubnetID>)
        requires
            self.wf(),
        ensures
            self@.len() == 1 ==> r is None,
            self@.len() > 1 ==> (r matches Some(p) && p@ == self@.drop_last() && p.wf()),
    {
        if self.segments.len() <= 1 {
            return None;
        }
        let mut segments: Vec<String> = Vec::new();
        let mut i: usize = 0;
        while i < self.segments.len() - 1
            invariant
                self.segments.len() > 1,
                i <= self.segments.len() - 1,
                segments@.len() == i,
                forall|k: int| 0 <= k < i ==> segments@[k]@ == #[trigger] self@[k],
            decreases self.segments.len() - 1 - i,
        {
            let c = self.segments[i].clone();
            assert(c@ == self@[i as int]);
            segments.push(c);
            i += 1;
        }
        proof {
            assert(segments.deep_view() =~= self@.drop_last());
        }
        Some(SubnetID { segments })
    }

    /// Structural equality of the two paths.
    pub fn equals(&self, other: &SubnetID) -> (r: bool)
        ensures
            r == (self@ == other@),
    {
        proof {
            assert(self@.len() == self.segments@.len());
            assert(other@.len() == other.segments@.len());
        }
        if self.segments.len() != other.segments.len() {
            return false;
        }
        let mut i: usize = 0;
        while i < self.segments.len()
            invariant
                self.segments.len() == other.segments.len(),
                i <= self.segments.len(),
                forall|k: int| 0 <= k < i ==> self@[k] == other@[k],
            decreases self.segments.len() - i,
        {
            if !(self.segments[i] == other.segments[i]) {
                assert(self@[i as int] != other@[i as int]);
                return false;
            }
            i += 1;
        }
        proof {
            assert(self@ =~= other@);
        }
        true
    }

    /// A fresh identifier with the same path.
    pub fn duplicate(&self) -> (r: SubnetID)
        ensures
            r@ == self@,
    {
        let mut segments: Vec<String> = Vec::new();
        let mut i: usize = 0;
        while i < self.segments.len()
            invariant
                i <= self.segments.len(),
                segments@.len() == i,
                forall|k: int| 0 <= k < i ==> segments@[k]@ == #[trigger] self@[k],
            decreases self.segments.len() - i,
        {
            let c = self.segments[i].clone();
            assert(c@ == self@[i as int]);
            segments.push(c);
            i += 1;
        }
        proof {
            assert(segments.deep_view() =~= self@);
        }
        SubnetID { segments }
    }

    /// How many segments the path holds.
    pub fn path_len(&self) -> (r: usize)
        ensures
            r == self@.len(),
    {
        self.segments.len()
    }
}

/// Helper naming `valid_segment` over every element without demanding a
/// non-empty path, for use while a path is being built up.
pub open spec fn valid_segments_all(segs: Seq<Seq<char>>) -> bool {
    forall|i: int| 0 <= i < segs.len() ==> valid_segment(#[trigger] segs[i])
}

/// The segments whose rendering a given path string is; `parse` returns
/// exactly these, and by `lemma_render_injective` they are unique.
pub open spec fn path_segs(s: Seq<char>) -> Seq<Seq<char>> {
    choose|segs: Seq<Seq<char>>| valid_segments(segs) && render(segs) == s
}

/// A non-empty path renders to a non-empty string.
pub proof fn lemma_render_positive(x: Seq<Seq<char>>)
    ensures
        x.len() > 0 ==> render(x).len() >= 1,
{
}

/// LAW: rendering is injective on well-formed paths. Together with the
/// contracts of `parse` and `to_string` this closes the round trip in
/// both directions: parsing a rendered identifier gives the identifier
/// back, and rendering a parsed string gives the string back.
pub proof fn lemma_render_injective(a: Seq<Seq<char>>, b: Seq<Seq<char>>)
    requires
        valid_segments(a),
        valid_segments(b),
        render(a) == render(b),
    ensures
        a == b,
    decreases a.len(),
{
    let r = render(a);
    let ra = render(a.drop_last());
    let rb = render(b.drop_last());
    let la = a.last().len() as int;
    let lb = b.last().len() as int;
    assert(a.last() == a[a.len() - 1]);
    assert(b.last() == b[b.len() - 1]);
    assert(valid_segment(a.last()));
    assert(valid_segment(b.last()));
    assert(r == ra.push('/') + a.last());
    assert(render(b) == rb.push('/') + b.last());
    assert(r.len() == ra.len() + 1 + la);
    assert(r.len() == rb.len() + 1 + lb);
    assert(r[ra.len() as int] == '/');
    assert(r[rb.len() as int] == '/');
    assert('/' as u32 == 47);
    if la < lb {
        // a's separator would sit inside b's final segment
        let off = ra.len() - rb.len() - 1;
        assert(0 <= off < lb);
        assert(r[ra.len() as int] == b.last()[off]);
        assert(valid_seg_char(b.last()[off]));
        assert(false);
    }
    if lb < la {
        let off = rb.len() - ra.len() - 1;
        assert(0 <= off < la);
        assert(r[rb.len() as int] == a.last()[off]);
        assert(valid_seg_char(a.last()[off]));
        assert(false);
    }
    assert(la == lb);
    assert(ra.len() == rb.len());
    assert(a.last() =~= b.last()) by {
        assert forall|k: int| 0 <= k < la implies a.last()[k] == b.last()[k] by {
            assert(a.last()[k] == r[ra.len() + 1 + k]);
            assert(b.last()[k] == r[rb.len() + 1 + k]);
        }
    }
    assert(ra =~= rb) by {
        assert forall|k: int| 0 <= k < ra.len() implies ra[k] == rb[k] by {
            assert(ra[k] == r[k]);
            assert(rb[k] == r[k]);
        }
    }
    if a.len() == 1 {
        if b.len() > 1 {
            assert(valid_segments(b.drop_last())) by {
                assert(forall|i: int|
                    0 <= i < b.drop_last().len() ==> #[trigger] b.drop_last()[i] == b[i]);
            }
            lemma_render_positive(b.drop_last());
            assert(ra.len() == 0);
            assert(false);
        }
        assert(a =~= b);
    } else {
        if b.len() == 1 {
            assert(valid_segments(a.drop_last())) by {
                assert(forall|i: int|
                    0 <= i < a.drop_last().len() ==> #[trigger] a.drop_last()[i] == a[i]);
            }
            lemma_render_positive(a.drop_last());
            assert(rb.len() == 0);
            assert(false);
        }
        assert(valid_segments(a.drop_last())) by {
            assert(forall|i: int|
                0 <= i < a.drop_last().len() ==> #[trigger] a.drop_last()[i] == a[i]);
        }
        assert(valid_segments(b.drop_last())) by {
            assert(forall|i: int|
                0 <= i < b.drop_last().len() ==> #[trigger] b.drop_last()[i] == b[i]);
        }
        lemma_render_injective(a.drop_last(), b.drop_last());
        assert(a =~= b) by {
            assert(forall|i: int|
                0 <= i < a.len() - 1 ==> #[trigger] a[i] == a.drop_last()[i]);
            assert(forall|i: int|
                0 <= i < b.len() - 1 ==> #[trigger] b[i] == b.drop_last()[i]);
        }
    }
}

/// LAW: the round trip closes. A well-formed identifier renders to an
/// accepted path string, and that string parses back to exactly the
/// same identifier; with the contracts of `parse` and `to_string` this
/// also gives the other direction, that rendering what a string parsed
/// to yields the string itself.
pub proof fn lemma_round_trip(segs: Seq<Seq<char>>)
    requires
        valid_segments(segs),
    ensures
        path_ok(render(segs)),
        path_segs(render(segs)) == segs,
    decreases segs.len(),
{
    let r = render(segs);
    let prefix = render(segs.drop_last());
    let last = segs.last();
    assert(last == segs[segs.len() - 1]);
    assert(valid_segment(last));
    assert(r == prefix.push('/') + last);
    assert('/' as u32 == 47);
    if segs.len() == 1 {
        assert(prefix.len() == 0);
        assert(r.len() == 1 + last.len());
        assert(r[0] == '/');
        assert forall|i: int| 0 <= i < r.len() implies (r[i] == '/' || valid_seg_char(
            #[trigger] r[i],
        )) by {
            if i > 0 {
                assert(r[i] == last[i - 1]);
            }
        }
        assert forall|i: int| 0 <= i < r.len() && #[trigger] r[i] == '/' implies i + 1 < r.len()
            && r[i + 1] != '/' by {
            if i > 0 {
                assert(r[i] == last[i - 1]);
                assert(valid_seg_char(last[i - 1]));
                assert(false);
            }
            assert(r[1] == last[0]);
            assert(valid_seg_char(last[0]));
        }
    } else {
        assert(valid_segments(segs.drop_last())) by {
            assert(forall|i: int|
                0 <= i < segs.drop_last().len() ==> #[trigger] segs.drop_last()[i] == segs[i]);
        }
        lemma_round_trip(segs.drop_last());
        assert(path_ok(prefix));
        assert(r.len() == prefix.len() + 1 + last.len());
        assert(r[0] == prefix[0]);
        assert forall|i: int| 0 <= i < r.len() implies (r[i] == '/' || valid_seg_char(
            #[trigger] r[i],
        )) by {
            if i < prefix.len() {
                assert(r[i] == prefix[i]);
            } else if i == prefix.len() {
                assert(r[i] == '/');
            } else {
                assert(r[i] == last[i - prefix.len() - 1]);
            }
        }
        assert forall|i: int| 0 <= i < r.len() && #[trigger] r[i] == '/' implies i + 1 < r.len()
            && r[i + 1] != '/' by {
            if i < prefix.len() {
                assert(r[i] == prefix[i]);
                if i + 1 < prefix.len() {
                    assert(r[i + 1] == prefix[i + 1]);
                } else {
                    // the last character of a rendered path is a segment
                    // character, never a separator
                    assert(i + 1 == prefix.len());
                    let pl = segs.drop_last().last();
                    assert(prefix == render(segs.drop_last().drop_last()).push('/') + pl);
                    assert(valid_segment(pl)) by {
                        assert(pl == segs.drop_last()[segs.drop_last().len() - 1]);
                    }
                    assert(prefix[i] == pl[pl.len() - 1]);
                    assert(valid_seg_char(prefix[i]));
                    assert(false);
                }
            } else if i == prefix.len() {
                assert(r[i + 1] == last[0]);
                assert(valid_seg_char(last[0]));
            } else {
                assert(r[i] == last[i - prefix.len() - 1]);
                assert(valid_seg_char(last[i - prefix.len() - 1]));
                assert(false);
            }
        }
    }
    assert(exists|x: Seq<Seq<char>>| valid_segments(x) && render(x) == r) by {
        assert(valid_segments(segs) && render(segs) == r);
    }
    lemma_render_injective(path_segs(r), segs);
}

/// Every accepted path string is ASCII: each character is a separator or
/// a segment character, and both lie below code point 128.
pub proof fn lemma_path_ok_ascii(s: Seq<char>)
    ensures
        path_ok(s) ==> vstd::utf8::is_ascii_chars(s),
{
    if path_ok(s) {
        assert forall|i: int| 0 <= i < s.len() implies '\0' <= #[trigger] s[i] <= '\u{7f}' by {
            assert(s[i] == '/' || valid_seg_char(s[i]));
        }
    }
}

} // verus!
