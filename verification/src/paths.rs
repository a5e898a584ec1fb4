use vstd::prelude::*;
use vstd::string::StringSliceAdditionalSpecFns;
use vstd::utf8::encode_utf8;

verus! {

/// True of the bytes that separate path components: `/` and `\`.
pub open spec fn is_sep(b: u8) -> bool {
    b == 0x2fu8 || b == 0x5cu8
}

/// True of a split-off piece that names a real directory entry:
/// not empty, not the `.` of the current directory, not the `..` of the parent.
pub open spec fn keep_component(c: Seq<u8>) -> bool {
    c.len() > 0 && c != seq![0x2eu8] && c != seq![0x2eu8, 0x2eu8]
}

/// Scanning state after the given bytes: the components finished so far,
/// and the (possibly empty) component still being read.
pub open spec fn split_state(bytes: Seq<u8>) -> (Seq<Seq<u8>>, Seq<u8>)
    decreases bytes.len(),
{
    if bytes.len() == 0 {
        (Seq::<Seq<u8>>::empty(), Seq::<u8>::empty())
    } else {
        let prev = split_state(bytes.drop_last());
        let b = bytes.last();
        if is_sep(b) {
            if keep_component(prev.1) {
                (prev.0.push(prev.1), Seq::<u8>::empty())
            } else {
                (prev.0, Seq::<u8>::empty())
            }
        } else {
            (prev.0, prev.1.push(b))
        }
    }
}

/// The normal components of a path: split on separators of either
/// platform style, with empty, `.` and `..` pieces dropped.
pub open spec fn spec_path_components(bytes: Seq<u8>) -> Seq<Seq<u8>> {
    let s = split_state(bytes);
    if keep_component(s.1) {
        s.0.push(s.1)
    } else {
        s.0
    }
}

/// The same bytes with every backslash separator rewritten to a slash.
pub open spec fn normalize_seps(bytes: Seq<u8>) -> Seq<u8> {
    bytes.map_values(|b: u8| if b == 0x5cu8 { 0x2fu8 } else { b })
}

/// Splitting a path does not depend on which separator style spells it:
/// rewriting every backslash to a slash leaves the scanning state unchanged.
pub proof fn lemma_split_state_sep_invariant(bytes: Seq<u8>)
    ensures
        split_state(normalize_seps(bytes)) == split_state(bytes),
    decreases bytes.len(),
{
    if bytes.len() == 0 {
        assert(normalize_seps(bytes) =~= bytes);
    } else {
        lemma_split_state_sep_invariant(bytes.drop_last());
        let n = normalize_seps(bytes);
        assert(n.drop_last() =~= normalize_seps(bytes.drop_last()));
        assert(n.last() == if bytes.last() == 0x5cu8 {
            0x2fu8
        } else {
            bytes.last()
        });
    }
}

/// A path yields the same component sequence however its separators are
/// spelled: the platform-independence law of path splitting.
pub proof fn lemma_path_components_sep_invariant(bytes: Seq<u8>)
    ensures
        spec_path_components(normalize_seps(bytes)) == spec_path_components(bytes),
{
    lemma_split_state_sep_invariant(bytes);
}

/// A photo's path, reduced to what the cache logic reads of it: the raw
/// bytes of each normal component, in order, with no separators left.
pub struct PhotoPath {
    components: Vec<Vec<u8>>,
}

impl View for PhotoPath {
    type V = Seq<Seq<u8>>;

    closed spec fn view(&self) -> Seq<Seq<u8>> {
        self.components.deep_view()
    }
}

/// True when `c` names a real directory entry (see `keep_component`).
fn is_kept(c: &Vec<u8>) -> (r: bool)
    ensures
        r == keep_component(c@),
{
    let r = c.len() > 0 && !(c.len() == 1 && c[0] == 0x2e) && !(c.len() == 2 && c[0] == 0x2e
        && c[1] == 0x2e);
    proof {
        if c@.len() == 1 && c@[0] == 0x2eu8 {
            assert(c@ =~= seq![0x2eu8]);
        }
        if c@.len() == 2 && c@[0] == 0x2eu8 && c@[1] == 0x2eu8 {
            assert(c@ =~= seq![0x2eu8, 0x2eu8]);
        }
        if c@ == seq![0x2eu8] {
            assert(c@.len() == 1 && c@[0] == 0x2eu8);
        }
        if c@ == seq![0x2eu8, 0x2eu8] {
            assert(c@.len() == 2 && c@[0] == 0x2eu8 && c@[1] == 0x2eu8);
        }
    }
    r
}

impl PhotoPath {
    /// Splits a path string into its normal components, treating `/` and
    /// `\` alike so that the result does not depend on the platform's
    /// separator style.
    pub fn parse(s: &str) -> (r: PhotoPath)
        ensures
            r@ == spec_path_components(s.spec_bytes()),
    {
        let bytes = s.as_bytes();
        let mut comps: Vec<Vec<u8>> = Vec::new();
        let mut cur: Vec<u8> = Vec::new();
        let mut i: usize = 0;
        while i < bytes.len()
            invariant
                i <= bytes@.len(),
                comps.deep_view() == split_state(bytes@.take(i as int)).0,
                cur@ == split_state(bytes@.take(i as int)).1,
            decreases bytes@.len() - i,
        {
            let b = bytes[i];
            proof {
                assert(bytes@.take(i + 1).drop_last() =~= bytes@.take(i as int));
                assert(bytes@.take(i + 1).last() == bytes@[i as int]);
            }
            if b == 0x2f || b == 0x5c {
                let ghost old_deep = comps.deep_view();
                if is_kept(&cur) {
                    let ghost cv = cur@;
                    comps.push(cur);
                    proof {
                        assert(comps.deep_view() =~~= old_deep.push(cv));
                    }
                }
                cur = Vec::new();
            } else {
                cur.push(b);
            }
            i = i + 1;
        }
        proof {
            assert(bytes@.take(bytes@.len() as int) =~= bytes@);
        }
        let ghost old_deep = comps.deep_view();
        if is_kept(&cur) {
            let ghost cv = cur@;
            comps.push(cur);
            proof {
                assert(comps.deep_view() =~~= old_deep.push(cv));
            }
        }
        PhotoPath { components: comps }
    }

    /// Wraps raw component bytes, as a host layer hands them over from an
    /// operating-system path; the bytes need not be valid UTF-8.
    pub fn from_components(components: Vec<Vec<u8>>) -> (r: PhotoPath)
        ensures
            r@ == components.deep_view(),
    {
        PhotoPath { components }
    }

    /// How many components the path has.
    pub fn component_count(&self) -> (n: usize)
        ensures
            n == self@.len(),
    {
        self.components.len()
    }

    /// The bytes of the component at `i`.
    pub fn component(&self, i: usize) -> (c: &Vec<u8>)
        requires
            i < self@.len(),
        ensures
            c@ == self@[i as int],
    {
        &self.components[i]
    }
}

/// Scanning state of the extension search within a file name: whether a
/// dot was seen, and the bytes after the last dot so far.
pub open spec fn dot_state(name: Seq<u8>) -> (bool, Seq<u8>)
    decreases name.len(),
{
    if name.len() == 0 {
        (false, Seq::<u8>::empty())
    } else {
        let prev = dot_state(name.drop_last());
        if name.last() == 0x2eu8 {
            (true, Seq::<u8>::empty())
        } else {
            (prev.0, prev.1.push(name.last()))
        }
    }
}

/// The file name of a path: the bytes after the last separator.
pub open spec fn spec_file_name(bytes: Seq<u8>) -> Seq<u8> {
    split_state(bytes).1
}

/// The extension of a path: the bytes after the last dot of its file
/// name, unless the only dot leads the name (a dotfile has none).
pub open spec fn spec_extension(bytes: Seq<u8>) -> Option<Seq<u8>> {
    let name = spec_file_name(bytes);
    let d = dot_state(name);
    if d.0 && name.len() - d.1.len() - 1 > 0 {
        Some(d.1)
    } else {
        None
    }
}

/// The byte with an ASCII capital letter lowered, all others unchanged.
pub open spec fn ascii_lower(b: u8) -> u8 {
    if 0x41u8 <= b && b <= 0x5au8 {
        (b + 0x20) as u8
    } else {
        b
    }
}

/// The bytes with every ASCII capital letter lowered.
pub open spec fn spec_lower(s: Seq<u8>) -> Seq<u8> {
    s.map_values(|b: u8| ascii_lower(b))
}

/// The path's extension, ASCII-lowercased.
pub open spec fn spec_lower_extension(bytes: Seq<u8>) -> Option<Seq<u8>> {
    match spec_extension(bytes) {
        Some(e) => Some(spec_lower(e)),
        None => None,
    }
}

/// True of the lowercased extensions of the camera RAW formats.
pub open spec fn spec_is_raw_ext(e: Seq<u8>) -> bool {
    ||| e == "cr2".spec_bytes()
    ||| e == "cr3".spec_bytes()
    ||| e == "nef".spec_bytes()
    ||| e == "nrw".spec_bytes()
    ||| e == "arw".spec_bytes()
    ||| e == "srf".spec_bytes()
    ||| e == "sr2".spec_bytes()
    ||| e == "dng".spec_bytes()
    ||| e == "raf".spec_bytes()
    ||| e == "orf".spec_bytes()
    ||| e == "rw2".spec_bytes()
    ||| e == "pef".spec_bytes()
    ||| e == "raw".spec_bytes()
}

/// True of the lowercased extensions of the standard, directly decodable
/// image formats.
pub open spec fn spec_is_standard_ext(e: Seq<u8>) -> bool {
    ||| e == "jpg".spec_bytes()
    ||| e == "jpeg".spec_bytes()
    ||| e == "png".spec_bytes()
    ||| e == "webp".spec_bytes()
    ||| e == "heic".spec_bytes()
    ||| e == "heif".spec_bytes()
}

/// True when the path bytes carry a RAW extension.
pub open spec fn spec_is_raw_bytes(bytes: Seq<u8>) -> bool {
    match spec_lower_extension(bytes) {
        Some(e) => spec_is_raw_ext(e),
        None => false,
    }
}

/// True when the path string names a RAW file.
pub open spec fn spec_is_raw_path(s: Seq<char>) -> bool {
    spec_is_raw_bytes(encode_utf8(s))
}

/// True when the path bytes carry any supported photo extension.
pub open spec fn spec_is_supported_bytes(bytes: Seq<u8>) -> bool {
    match spec_lower_extension(bytes) {
        Some(e) => spec_is_standard_ext(e) || spec_is_raw_ext(e),
        None => false,
    }
}

/// True when the path string names a supported photo file.
pub open spec fn spec_is_supported_path(s: Seq<char>) -> bool {
    spec_is_supported_bytes(encode_utf8(s))
}

/// True when the two byte slices hold the same bytes.
fn bytes_eq(a: &[u8], b: &[u8]) -> (r: bool)
    ensures
        r == (a@ == b@),
{
    if a.len() != b.len() {
        proof {
            assert(a@.len() != b@.len());
        }
        return false;
    }
    let n = a.len();
    let mut i: usize = 0;
    while i < n
        invariant
            i <= n,
            n == a@.len(),
            n == b@.len(),
            forall|j: int| 0 <= j < i ==> a@[j] == b@[j],
        decreases n - i,
    {
        if a[i] != b[i] {
            return false;
        }
        i = i + 1;
    }
    proof {
        assert(a@ =~= b@);
    }
    true
}

/// The ASCII-lowercased extension of the path bytes, when there is one.
fn lower_extension_of(bytes: &[u8]) -> (r: Option<Vec<u8>>)
    ensures
        r is Some <==> spec_lower_extension(bytes@) is Some,
        r is Some ==> r->0@ == spec_lower_extension(bytes@)->0,
{
    let n = bytes.len();
    let mut name: Vec<u8> = Vec::new();
    let mut i: usize = 0;
    while i < n
        invariant
            i <= n,
            n == bytes@.len(),
            name@ == split_state(bytes@.take(i as int)).1,
        decreases n - i,
    {
        let b = bytes[i];
        proof {
            assert(bytes@.take(i + 1).drop_last() =~= bytes@.take(i as int));
            assert(bytes@.take(i + 1).last() == bytes@[i as int]);
        }
        if b == 0x2f || b == 0x5c {
            name = Vec::new();
        } else {
            name.push(b);
        }
        i = i + 1;
    }
    proof {
        assert(bytes@.take(bytes@.len() as int) =~= bytes@);
    }
    let m = name.len();
    let mut seen = false;
    let mut ext: Vec<u8> = Vec::new();
    let mut j: usize = 0;
    while j < m
        invariant
            j <= m,
            m == name@.len(),
            seen == dot_state(name@.take(j as int)).0,
            ext@ == dot_state(name@.take(j as int)).1,
            ext@.len() <= j,
        decreases m - j,
    {
        let b = name[j];
        proof {
            assert(name@.take(j + 1).drop_last() =~= name@.take(j as int));
            assert(name@.take(j + 1).last() == name@[j as int]);
        }
        if b == 0x2e {
            seen = true;
            ext = Vec::new();
        } else {
            ext.push(b);
        }
        j = j + 1;
    }
    proof {
        assert(name@.take(name@.len() as int) =~= name@);
    }
    if !(seen && m - ext.len() >= 2) {
        return None;
    }
    let k = ext.len();
    let mut low: Vec<u8> = Vec::new();
    let mut t: usize = 0;
    while t < k
        invariant
            t <= k,
            k == ext@.len(),
            low@ == spec_lower(ext@).take(t as int),
        decreases k - t,
    {
        let b = ext[t];
        let lb: u8 = if b >= 0x41 && b <= 0x5a {
            b + 0x20
        } else {
            b
        };
        low.push(lb);
        proof {
            assert(spec_lower(ext@).take(t + 1) =~= spec_lower(ext@).take(t as int).push(
                ascii_lower(ext@[t as int]),
            ));
        }
        t = t + 1;
    }
    proof {
        assert(spec_lower(ext@).take(ext@.len() as int) =~= spec_lower(ext@));
    }
    Some(low)
}

/// True when the path names a camera RAW file, by its extension.
pub fn is_raw_file(path: &str) -> (r: bool)
    ensures
        r == spec_is_raw_path(path@),
{
    let bytes = path.as_bytes();
    match lower_extension_of(bytes) {
        Some(e) => {
            bytes_eq(e.as_slice(), "cr2".as_bytes()) || bytes_eq(e.as_slice(), "cr3".as_bytes())
                || bytes_eq(e.as_slice(), "nef".as_bytes()) || bytes_eq(
                e.as_slice(),
                "nrw".as_bytes(),
            ) || bytes_eq(e.as_slice(), "arw".as_bytes()) || bytes_eq(
                e.as_slice(),
                "srf".as_bytes(),
            ) || bytes_eq(e.as_slice(), "sr2".as_bytes()) || bytes_eq(
                e.as_slice(),
                "dng".as_bytes(),
            ) || bytes_eq(e.as_slice(), "raf".as_bytes()) || bytes_eq(
                e.as_slice(),
                "orf".as_bytes(),
            ) || bytes_eq(e.as_slice(), "rw2".as_bytes()) || bytes_eq(
                e.as_slice(),
                "pef".as_bytes(),
            ) || bytes_eq(e.as_slice(), "raw".as_bytes())
        },
        None => false,
    }
}

/// True when the path names any supported photo file, by its extension.
pub fn is_supported_image(path: &str) -> (r: bool)
    ensures
        r == spec_is_supported_path(path@),
{
    let bytes = path.as_bytes();
    match lower_extension_of(bytes) {
        Some(e) => {
            bytes_eq(e.as_slice(), "jpg".as_bytes()) || bytes_eq(e.as_slice(), "jpeg".as_bytes())
                || bytes_eq(e.as_slice(), "png".as_bytes()) || bytes_eq(
                e.as_slice(),
                "webp".as_bytes(),
            ) || bytes_eq(e.as_slice(), "heic".as_bytes()) || bytes_eq(
                e.as_slice(),
                "heif".as_bytes(),
            ) || is_raw_file(path)
        },
        None => false,
    }
}

} // verus!
