//! Reflected property values, value types and durable asset references.

use vstd::prelude::*;

use crate::foundation::id::{InstanceId, ResourceId};
use crate::reflect::error::{AssetPathProblem, ValueError};
use crate::text::{has_prefix, is_trimmed, is_white_space, owned, split_on, white_space_char};

verus! {

/// Reflected property value type.
#[derive(Debug, Copy, Clone, PartialEq, Eq, Structural, Hash, PartialOrd, Ord)]
pub enum PropertyType {
    /// UTF-8 text.
    String,
    /// Boolean value.
    Bool,
    /// 32-bit floating point number.
    F32,
    /// 2D vector.
    Vec2,
    /// 3D vector.
    Vec3,
    /// 4D vector.
    Vec4,
    /// Quaternion rotation.
    Quat,
    /// Linear RGBA color.
    Color,
    /// Position, rotation, and scale transform.
    Transform,
    /// 2D rectangle.
    Rect,
    /// 3D axis-aligned bounding box.
    Aabb,
    /// Runtime instance handle.
    InstanceId,
    /// Runtime resource handle.
    ResourceId,
    /// Durable source asset reference.
    AssetReference,
}

impl PropertyType {
    /// The stable display name of this type.
    pub open spec fn name(self) -> Seq<char> {
        match self {
            PropertyType::String => "String"@,
            PropertyType::Bool => "Bool"@,
            PropertyType::F32 => "F32"@,
            PropertyType::Vec2 => "Vec2"@,
            PropertyType::Vec3 => "Vec3"@,
            PropertyType::Vec4 => "Vec4"@,
            PropertyType::Quat => "Quat"@,
            PropertyType::Color => "Color"@,
            PropertyType::Transform => "Transform"@,
            PropertyType::Rect => "Rect"@,
            PropertyType::Aabb => "Aabb"@,
            PropertyType::InstanceId => "InstanceId"@,
            PropertyType::ResourceId => "ResourceId"@,
            PropertyType::AssetReference => "AssetReference"@,
        }
    }

    /// Returns the stable display name of this type.
    pub fn as_str(self) -> (s: &'static str)
        ensures
            s@ == self.name(),
    {
        match self {
            PropertyType::String => "String",
            PropertyType::Bool => "Bool",
            PropertyType::F32 => "F32",
            PropertyType::Vec2 => "Vec2",
            PropertyType::Vec3 => "Vec3",
            PropertyType::Vec4 => "Vec4",
            PropertyType::Quat => "Quat",
            PropertyType::Color => "Color",
            PropertyType::Transform => "Transform",
            PropertyType::Rect => "Rect",
            PropertyType::Aabb => "Aabb",
            PropertyType::InstanceId => "InstanceId",
            PropertyType::ResourceId => "ResourceId",
            PropertyType::AssetReference => "AssetReference",
        }
    }

    /// Whether values of this type have a neutral default. Handle-like types
    /// have none under the non-zero ID policy.
    pub open spec fn has_type_default(self) -> bool {
        !(self is InstanceId || self is ResourceId || self is AssetReference)
    }
}

/// The scheme every project asset path starts with.
pub open spec fn path_scheme() -> Seq<char> {
    seq!['r', 'e', 's', ':', '/', '/']
}

/// Whether a path segment is `.` or `..`.
pub open spec fn is_dot_segment(seg: Seq<char>) -> bool {
    ||| (seg.len() == 1 && seg[0] == '.')
    ||| (seg.len() == 2 && seg[0] == '.' && seg[1] == '.')
}

/// What is wrong with one `/`-separated segment of a project asset path.
pub open spec fn segment_problem(seg: Seq<char>) -> Option<AssetPathProblem> {
    if seg.len() == 0 {
        Some(AssetPathProblem::EmptySegment)
    } else if is_dot_segment(seg) {
        Some(AssetPathProblem::RelativeSegment)
    } else if !is_trimmed(seg) {
        Some(AssetPathProblem::UntrimmedSegment)
    } else {
        None
    }
}

/// The problem of the first segment that has one.
pub open spec fn first_segment_problem(segs: Seq<Seq<char>>) -> Option<AssetPathProblem>
    decreases segs.len(),
{
    if segs.len() == 0 {
        None
    } else {
        let before = first_segment_problem(segs.drop_last());
        if before is Some {
            before
        } else {
            segment_problem(segs.last())
        }
    }
}

/// The first rule of the `res://` asset path contract that `p` breaks, if any.
pub open spec fn asset_path_problem(p: Seq<char>) -> Option<AssetPathProblem> {
    let rel = p.subrange(path_scheme().len() as int, p.len() as int);
    if p.len() == 0 {
        Some(AssetPathProblem::Empty)
    } else if !is_trimmed(p) {
        Some(AssetPathProblem::Untrimmed)
    } else if !has_prefix(p, path_scheme()) {
        Some(AssetPathProblem::MissingScheme)
    } else if rel.len() == 0 {
        Some(AssetPathProblem::MissingRelativePath)
    } else if rel[0] == '/' {
        Some(AssetPathProblem::AbsolutePath)
    } else if rel.contains('\\') {
        Some(AssetPathProblem::Backslash)
    } else {
        first_segment_problem(split_on(rel, '/'))
    }
}

/// Accepted asset paths use `/` separators only: a path with no problem
/// holds no backslash anywhere, and a path that passes the earlier rules
/// (non-empty, trimmed, `res://`, a non-empty relative path that does not
/// start with `/`) but holds a backslash after the scheme is refused for
/// exactly that.
pub proof fn lemma_asset_path_backslash_rule(p: Seq<char>)
    ensures
        asset_path_problem(p) is None ==> forall|i: int| 0 <= i < p.len() ==> p[i] != '\\',
        ({
            let rel = p.subrange(6, p.len() as int);
            &&& p.len() > 6
            &&& is_trimmed(p)
            &&& p[0] == 'r' && p[1] == 'e' && p[2] == 's' && p[3] == ':' && p[4] == '/' && p[5] == '/'
            &&& p[6] != '/'
            &&& exists|j: int| 6 <= j < p.len() && p[j] == '\\'
        }) ==> asset_path_problem(p) == Some(AssetPathProblem::Backslash),
{
    let rel = p.subrange(path_scheme().len() as int, p.len() as int);
    if asset_path_problem(p) is None {
        assert forall|i: int| 0 <= i < p.len() implies p[i] != '\\' by {
            if i < 6 {
                assert(p.subrange(0, 6)[i] == path_scheme()[i]);
            } else {
                assert(rel[i - 6] == p[i]);
                if p[i] == '\\' {
                    assert(rel.contains('\\'));
                }
            }
        }
    }
    if p.len() > 6 && p[0] == 'r' && p[1] == 'e' && p[2] == 's' && p[3] == ':' && p[4] == '/' && p[5] == '/'
        && exists|j: int| 6 <= j < p.len() && p[j] == '\\' {
        assert(p.subrange(0, 6) =~= path_scheme());
        let j = choose|j: int| 6 <= j < p.len() && p[j] == '\\';
        assert(rel[j - 6] == '\\');
        assert(rel.contains('\\'));
        assert(rel[0] == p[6]);
    }
}

/// An accepted asset path is `res://` followed by a non-empty relative
/// path that neither starts nor ends with `/`, and the whole path starts and
/// ends without white space.
pub proof fn lemma_accepted_asset_path_shape(p: Seq<char>)
    requires
        asset_path_problem(p) is None,
    ensures
        p.len() > 6,
        p[0] == 'r' && p[1] == 'e' && p[2] == 's' && p[3] == ':' && p[4] == '/' && p[5] == '/',
        p[6] != '/',
        p[p.len() - 1] != '/',
        !is_white_space(p[0]) && !is_white_space(p[p.len() - 1]),
{
    let rel = p.subrange(6, p.len() as int);
    assert(p.subrange(0, 6) == path_scheme());
    assert(p[0] == p.subrange(0, 6)[0] && p[1] == p.subrange(0, 6)[1] && p[2] == p.subrange(0, 6)[2]);
    assert(p[3] == p.subrange(0, 6)[3] && p[4] == p.subrange(0, 6)[4] && p[5] == p.subrange(0, 6)[5]);
    assert(rel[0] == p[6]);
    assert(rel.last() == p[p.len() - 1]);
    if rel.last() == '/' {
        let segs = split_on(rel, '/');
        assert(segs.last() == Seq::<char>::empty());
        assert(segs.len() > 0);
        assert(segment_problem(segs.last()) == Some(AssetPathProblem::EmptySegment));
        assert(first_segment_problem(segs) is Some);
    }
}

proof fn lemma_split_step(s: Seq<char>, i: int, sep: char)
    requires
        0 <= i < s.len(),
    ensures
        split_on(s.take(i + 1), sep) == (if s[i] == sep {
            split_on(s.take(i), sep).push(Seq::<char>::empty())
        } else {
            split_on(s.take(i), sep).update(
                split_on(s.take(i), sep).len() - 1,
                split_on(s.take(i), sep).last().push(s[i]),
            )
        }),
{
    assert(s.take(i + 1).drop_last() =~= s.take(i));
}

/// Checks the `res://` asset path contract, returning the first rule broken.
fn check_asset_path(path: &str) -> (r: Option<AssetPathProblem>)
    ensures
        r == asset_path_problem(path@),
{
    let n = path.unicode_len();
    if n == 0 {
        return Some(AssetPathProblem::Empty);
    }
    if white_space_char(path.get_char(0)) || white_space_char(path.get_char(n - 1)) {
        return Some(AssetPathProblem::Untrimmed);
    }
    if n < 6 || path.get_char(0) != 'r' || path.get_char(1) != 'e' || path.get_char(2) != 's'
        || path.get_char(3) != ':' || path.get_char(4) != '/' || path.get_char(5) != '/' {
        proof {
            if has_prefix(path@, path_scheme()) {
                assert(path@.subrange(0, 6)[0] == 'r');
                assert(path@.subrange(0, 6)[1] == 'e');
                assert(path@.subrange(0, 6)[2] == 's');
                assert(path@.subrange(0, 6)[3] == ':');
                assert(path@.subrange(0, 6)[4] == '/');
                assert(path@.subrange(0, 6)[5] == '/');
            }
        }
        return Some(AssetPathProblem::MissingScheme);
    }
    assert(path@.subrange(0, 6) =~= path_scheme());
    let ghost rel = path@.subrange(6, n as int);
    if n == 6 {
        return Some(AssetPathProblem::MissingRelativePath);
    }
    if path.get_char(6) == '/' {
        return Some(AssetPathProblem::AbsolutePath);
    }
    assert(asset_path_problem(path@) == (if rel.contains('\\') {
        Some(AssetPathProblem::Backslash)
    } else {
        first_segment_problem(split_on(rel, '/'))
    }));
    // Backslashes are rejected before any segment is examined.
    let mut k: usize = 6;
    while k < n
        invariant
            n == path@.len(),
            6 <= k <= n,
            rel == path@.subrange(6, n as int),
            asset_path_problem(path@) == (if rel.contains('\\') {
                Some(AssetPathProblem::Backslash)
            } else {
                first_segment_problem(split_on(rel, '/'))
            }),
            forall|j: int| 0 <= j < k - 6 ==> rel[j] != '\\',
        decreases n - k,
    {
        if path.get_char(k) == '\\' {
            assert(rel[k - 6] == '\\');
            return Some(AssetPathProblem::Backslash);
        }
        k = k + 1;
    }
    assert(!rel.contains('\\'));
    // One pass over the relative path; each completed segment is checked in order.
    let mut start: usize = 6;
    let mut i: usize = 6;
    while i < n
        invariant
            n == path@.len(),
            6 <= start <= i <= n,
            rel == path@.subrange(6, n as int),
            asset_path_problem(path@) == first_segment_problem(split_on(rel, '/')),
            split_on(rel.take(i - 6), '/').len() >= 1,
            split_on(rel.take(i - 6), '/').last() == path@.subrange(start as int, i as int),
            first_segment_problem(split_on(rel.take(i - 6), '/').drop_last()) is None,
        decreases n - i,
    {
        proof {
            lemma_split_step(rel, i - 6, '/');
        }
        let c = path.get_char(i);
        if c == '/' {
            let ghost segs = split_on(rel.take(i - 6), '/');
            let ghost seg = path@.subrange(start as int, i as int);
            let problem = check_segment(path, start, i);
            assert(segs.push(Seq::<char>::empty()).drop_last() =~= segs);
            if problem.is_some() {
                proof {
                    assert(split_on(rel.take(i + 1 - 6), '/').drop_last() == segs);
                    assert(segs.drop_last().push(segs.last()) =~= segs);
                }
                // The remaining text cannot change an earlier segment's verdict.
                proof {
                    lemma_first_problem_prefix(rel, i - 6 + 1, n - 6);
                    assert(rel.take(n - 6) =~= rel);
                }
                return problem;
            }
            assert(segs.drop_last().push(segs.last()) =~= segs);
            start = i + 1;
            proof {
                let next = split_on(rel.take(i + 1 - 6), '/');
                assert(next.last() =~= path@.subrange((i + 1) as int, (i + 1) as int));
            }
        } else {
            proof {
                let segs = split_on(rel.take(i - 6), '/');
                let next = split_on(rel.take(i + 1 - 6), '/');
                assert(next.drop_last() =~= segs.drop_last());
                assert(next.last() =~= path@.subrange(start as int, (i + 1) as int));
            }
        }
        i = i + 1;
    }
    assert(rel.take(n - 6) =~= rel);
    let last = check_segment(path, start, n);
    proof {
        let segs = split_on(rel, '/');
        assert(segs.drop_last().push(segs.last()) =~= segs);
    }
    last
}

/// Once a completed segment of a prefix is bad, every longer prefix reports
/// that same problem, both for its completed segments and for all of them.
proof fn lemma_first_problem_prefix(s: Seq<char>, i: int, m: int)
    requires
        0 <= i <= m <= s.len(),
        first_segment_problem(split_on(s.take(i), '/').drop_last()) is Some,
    ensures
        first_segment_problem(split_on(s.take(m), '/').drop_last()) == first_segment_problem(
            split_on(s.take(i), '/').drop_last(),
        ),
        first_segment_problem(split_on(s.take(m), '/')) == first_segment_problem(
            split_on(s.take(i), '/').drop_last(),
        ),
    decreases m - i,
{
    let cur = split_on(s.take(m), '/');
    crate::text::lemma_split_on_nonempty(s.take(m), '/');
    assert(cur.drop_last().push(cur.last()) =~= cur);
    if m > i {
        lemma_first_problem_prefix(s, i, m - 1);
        lemma_split_step(s, m - 1, '/');
        let prev = split_on(s.take(m - 1), '/');
        crate::text::lemma_split_on_nonempty(s.take(m - 1), '/');
        if s[m - 1] == '/' {
            assert(prev.push(Seq::<char>::empty()).drop_last() =~= prev);
        } else {
            assert(prev.update(prev.len() - 1, prev.last().push(s[m - 1])).drop_last()
                =~= prev.drop_last());
        }
    }
}

/// Checks one segment, `path[start..end]`, against the segment rules.
fn check_segment(path: &str, start: usize, end: usize) -> (r: Option<AssetPathProblem>)
    requires
        start <= end <= path@.len(),
    ensures
        r == segment_problem(path@.subrange(start as int, end as int)),
{
    let ghost seg = path@.subrange(start as int, end as int);
    if start == end {
        return Some(AssetPathProblem::EmptySegment);
    }
    let first = path.get_char(start);
    let last = path.get_char(end - 1);
    if (end - start == 1 && first == '.') || (end - start == 2 && first == '.' && last == '.') {
        return Some(AssetPathProblem::RelativeSegment);
    }
    if white_space_char(first) || white_space_char(last) {
        return Some(AssetPathProblem::UntrimmedSegment);
    }
    None
}

/// Reflected durable source asset reference: a stable non-zero GUID plus a
/// readable `res://` project path.
#[derive(Debug, PartialEq, Eq, Hash)]
pub struct AssetReferenceValue {
    guid: u64,
    path: String,
}

impl AssetReferenceValue {
    #[verifier::type_invariant]
    spec fn valid(self) -> bool {
        &&& self.guid != 0
        &&& asset_path_problem(self.path@) is None
    }

    /// The stable asset identity raw value.
    pub closed spec fn spec_guid(self) -> u64 {
        self.guid
    }

    /// The readable project asset path.
    pub closed spec fn spec_path(self) -> Seq<char> {
        self.path@
    }

    /// Creates a reflected asset reference from durable identity and readable path.
    pub fn new(guid: u64, path: &str) -> (r: Result<Self, ValueError>)
        ensures
            guid == 0 ==> r == Err::<Self, ValueError>(ValueError::InvalidAssetReferenceGuid { raw: guid }),
            guid != 0 ==> match asset_path_problem(path@) {
                None => r is Ok && r->Ok_0.spec_guid() == guid && r->Ok_0.spec_path() == path@,
                Some(problem) => r is Err && r->Err_0.is_path_error(problem, path@),
            },
    {
        if guid == 0 {
            return Err(ValueError::InvalidAssetReferenceGuid { raw: guid });
        }
        match check_asset_path(path) {
            None => Ok(AssetReferenceValue { guid, path: owned(path) }),
            Some(problem) => Err(ValueError::from_path_problem(problem, path)),
        }
    }

    /// Returns the stable asset identity raw value.
    pub fn guid(&self) -> (g: u64)
        ensures
            g == self.spec_guid(),
            g != 0,
    {
        proof {
            use_type_invariant(self);
        }
        self.guid
    }

    /// Returns the readable `res://` project asset path.
    pub fn path(&self) -> (p: &str)
        ensures
            p@ == self.spec_path(),
            asset_path_problem(p@) is None,
    {
        proof {
            use_type_invariant(self);
        }
        self.path.as_str()
    }

    /// Returns a copy of this reference with a new validated path.
    pub fn with_path(&self, path: &str) -> (r: Result<Self, ValueError>)
        ensures
            match asset_path_problem(path@) {
                None => r is Ok && r->Ok_0.spec_guid() == self.spec_guid() && r->Ok_0.spec_path()
                    == path@,
                Some(problem) => r is Err && r->Err_0.is_path_error(problem, path@),
            },
    {
        let guid = self.guid();
        Self::new(guid, path)
    }
}

impl Clone for AssetReferenceValue {
    fn clone(&self) -> (r: Self)
        ensures
            r == *self,
    {
        proof {
            use_type_invariant(self);
        }
        AssetReferenceValue { guid: self.guid, path: self.path.clone() }
    }
}

/// Reflected property value container.
///
/// Floating-point components are held as their IEEE-754 binary32 bit
/// patterns (`f32::to_bits`), so values move through the library exactly.
/// Component order follows the engine math types: `Vec4`/`Quat` as x, y, z,
/// w; `Color` as r, g, b, a; `Transform` as position xyz, rotation xyzw,
/// scale xyz; `Rect` as min xy then size xy; `Aabb` as min xyz then max xyz.
#[derive(Debug, PartialEq)]
pub enum PropertyValue {
    /// UTF-8 text.
    String(String),
    /// Boolean value.
    Bool(bool),
    /// 32-bit floating point number.
    F32(u32),
    /// 2D vector.
    Vec2([u32; 2]),
    /// 3D vector.
    Vec3([u32; 3]),
    /// 4D vector.
    Vec4([u32; 4]),
    /// Quaternion rotation.
    Quat([u32; 4]),
    /// Linear RGBA color.
    Color([u32; 4]),
    /// Position, rotation, and scale transform.
    Transform([u32; 10]),
    /// 2D rectangle.
    Rect([u32; 4]),
    /// 3D axis-aligned bounding box.
    Aabb([u32; 6]),
    /// Runtime instance handle.
    InstanceId(InstanceId),
    /// Runtime resource handle.
    ResourceId(ResourceId),
    /// Durable source asset reference.
    AssetReference(AssetReferenceValue),
}

/// Bit pattern of `0.0f32`.
pub open spec fn zero_bits() -> u32 {
    0u32
}

/// Bit pattern of `1.0f32`.
pub open spec fn one_bits() -> u32 {
    0x3f80_0000u32
}

impl PropertyValue {
    /// The reflected type of a value.
    pub open spec fn spec_type(self) -> PropertyType {
        match self {
            PropertyValue::String(_) => PropertyType::String,
            PropertyValue::Bool(_) => PropertyType::Bool,
            PropertyValue::F32(_) => PropertyType::F32,
            PropertyValue::Vec2(_) => PropertyType::Vec2,
            PropertyValue::Vec3(_) => PropertyType::Vec3,
            PropertyValue::Vec4(_) => PropertyType::Vec4,
            PropertyValue::Quat(_) => PropertyType::Quat,
            PropertyValue::Color(_) => PropertyType::Color,
            PropertyValue::Transform(_) => PropertyType::Transform,
            PropertyValue::Rect(_) => PropertyType::Rect,
            PropertyValue::Aabb(_) => PropertyType::Aabb,
            PropertyValue::InstanceId(_) => PropertyType::InstanceId,
            PropertyValue::ResourceId(_) => PropertyType::ResourceId,
            PropertyValue::AssetReference(_) => PropertyType::AssetReference,
        }
    }

    /// The neutral default of a type: empty text, `false`, zero numbers and
    /// vectors, the identity rotation and transform, opaque white.
    pub open spec fn is_type_default(self, value_type: PropertyType) -> bool {
        let z = zero_bits();
        let o = one_bits();
        match value_type {
            PropertyType::String => self matches PropertyValue::String(s) && s@.len() == 0,
            PropertyType::Bool => self == PropertyValue::Bool(false),
            PropertyType::F32 => self == PropertyValue::F32(z),
            PropertyType::Vec2 => self matches PropertyValue::Vec2(a) && a@ == seq![z, z],
            PropertyType::Vec3 => self matches PropertyValue::Vec3(a) && a@ == seq![z, z, z],
            PropertyType::Vec4 => self matches PropertyValue::Vec4(a) && a@ == seq![z, z, z, z],
            PropertyType::Quat => self matches PropertyValue::Quat(a) && a@ == seq![z, z, z, o],
            PropertyType::Color => self matches PropertyValue::Color(a) && a@ == seq![o, o, o, o],
            PropertyType::Transform => self matches PropertyValue::Transform(a) && a@ == seq![
                z,
                z,
                z,
                z,
                z,
                z,
                o,
                o,
                o,
                o,
            ],
            PropertyType::Rect => self matches PropertyValue::Rect(a) && a@ == seq![z, z, z, z],
            PropertyType::Aabb => self matches PropertyValue::Aabb(a) && a@ == seq![
                z,
                z,
                z,
                z,
                z,
                z,
            ],
            _ => false,
        }
    }

    /// Creates a neutral default value for a reflected type when one exists.
    pub fn type_default(value_type: PropertyType) -> (r: Result<Self, ValueError>)
        ensures
            value_type.has_type_default() ==> r is Ok && r->Ok_0.is_type_default(value_type)
                && r->Ok_0.spec_type() == value_type,
            !value_type.has_type_default() ==> r == Err::<Self, ValueError>(
                ValueError::NoTypeDefault { value_type },
            ),
    {
        let z: u32 = 0;
        let o: u32 = 0x3f80_0000;
        let value = match value_type {
            PropertyType::String => PropertyValue::String(String::new()),
            PropertyType::Bool => PropertyValue::Bool(false),
            PropertyType::F32 => PropertyValue::F32(z),
            PropertyType::Vec2 => PropertyValue::Vec2([z, z]),
            PropertyType::Vec3 => PropertyValue::Vec3([z, z, z]),
            PropertyType::Vec4 => PropertyValue::Vec4([z, z, z, z]),
            PropertyType::Quat => PropertyValue::Quat([z, z, z, o]),
            PropertyType::Color => PropertyValue::Color([o, o, o, o]),
            PropertyType::Transform => PropertyValue::Transform([z, z, z, z, z, z, o, o, o, o]),
            PropertyType::Rect => PropertyValue::Rect([z, z, z, z]),
            PropertyType::Aabb => PropertyValue::Aabb([z, z, z, z, z, z]),
            _ => {
                return Err(ValueError::NoTypeDefault { value_type });
            },
        };
        proof {
            match value {
                PropertyValue::Vec2(a) => assert(a@ =~= seq![z, z]),
                PropertyValue::Vec3(a) => assert(a@ =~= seq![z, z, z]),
                PropertyValue::Vec4(a) => assert(a@ =~= seq![z, z, z, z]),
                PropertyValue::Quat(a) => assert(a@ =~= seq![z, z, z, o]),
                PropertyValue::Color(a) => assert(a@ =~= seq![o, o, o, o]),
                PropertyValue::Transform(a) => assert(a@ =~= seq![z, z, z, z, z, z, o, o, o, o]),
                PropertyValue::Rect(a) => assert(a@ =~= seq![z, z, z, z]),
                PropertyValue::Aabb(a) => assert(a@ =~= seq![z, z, z, z, z, z]),
                _ => {},
            }
        }
        Ok(value)
    }

    /// Returns the reflected type of this value.
    pub fn property_type(&self) -> (t: PropertyType)
        ensures
            t == self.spec_type(),
    {
        match self {
            PropertyValue::String(_) => PropertyType::String,
            PropertyValue::Bool(_) => PropertyType::Bool,
            PropertyValue::F32(_) => PropertyType::F32,
            PropertyValue::Vec2(_) => PropertyType::Vec2,
            PropertyValue::Vec3(_) => PropertyType::Vec3,
            PropertyValue::Vec4(_) => PropertyType::Vec4,
            PropertyValue::Quat(_) => PropertyType::Quat,
            PropertyValue::Color(_) => PropertyType::Color,
            PropertyValue::Transform(_) => PropertyType::Transform,
            PropertyValue::Rect(_) => PropertyType::Rect,
            PropertyValue::Aabb(_) => PropertyType::Aabb,
            PropertyValue::InstanceId(_) => PropertyType::InstanceId,
            PropertyValue::ResourceId(_) => PropertyType::ResourceId,
            PropertyValue::AssetReference(_) => PropertyType::AssetReference,
        }
    }
}

impl Clone for PropertyValue {
    fn clone(&self) -> (r: Self)
        ensures
            r == *self,
    {
        match self {
            PropertyValue::String(s) => PropertyValue::String(s.clone()),
            PropertyValue::Bool(b) => PropertyValue::Bool(*b),
            PropertyValue::F32(x) => PropertyValue::F32(*x),
            PropertyValue::Vec2(a) => PropertyValue::Vec2(*a),
            PropertyValue::Vec3(a) => PropertyValue::Vec3(*a),
            PropertyValue::Vec4(a) => PropertyValue::Vec4(*a),
            PropertyValue::Quat(a) => PropertyValue::Quat(*a),
            PropertyValue::Color(a) => PropertyValue::Color(*a),
            PropertyValue::Transform(a) => PropertyValue::Transform(*a),
            PropertyValue::Rect(a) => PropertyValue::Rect(*a),
            PropertyValue::Aabb(a) => PropertyValue::Aabb(*a),
            PropertyValue::InstanceId(id) => PropertyValue::InstanceId(*id),
            PropertyValue::ResourceId(id) => PropertyValue::ResourceId(*id),
            PropertyValue::AssetReference(a) => PropertyValue::AssetReference(a.clone()),
        }
    }
}

/// Every value reports the type of the same name as its variant, so it is
/// compatible with a descriptor of exactly that type.
pub proof fn lemma_value_type_names_its_variant(v: PropertyValue)
    ensures
        v is String <==> v.spec_type() == PropertyType::String,
        v is Bool <==> v.spec_type() == PropertyType::Bool,
        v is F32 <==> v.spec_type() == PropertyType::F32,
        v is Vec2 <==> v.spec_type() == PropertyType::Vec2,
        v is Vec3 <==> v.spec_type() == PropertyType::Vec3,
        v is Vec4 <==> v.spec_type() == PropertyType::Vec4,
        v is Quat <==> v.spec_type() == PropertyType::Quat,
        v is Color <==> v.spec_type() == PropertyType::Color,
        v is Transform <==> v.spec_type() == PropertyType::Transform,
        v is Rect <==> v.spec_type() == PropertyType::Rect,
        v is Aabb <==> v.spec_type() == PropertyType::Aabb,
        v is InstanceId <==> v.spec_type() == PropertyType::InstanceId,
        v is ResourceId <==> v.spec_type() == PropertyType::ResourceId,
        v is AssetReference <==> v.spec_type() == PropertyType::AssetReference,
{
}

} // verus!
