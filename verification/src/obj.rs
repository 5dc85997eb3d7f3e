//! Mesh descriptions in the Wavefront OBJ format.
//!
//! A description is taken in line by line. The reader of the file cuts each
//! line into its words and says which words are numbers; what the lines
//! mean, and how the faces find their vertices, is settled here.

use crate::fixed::{Fixed, ONE};
use crate::mesh::{name_view, Face, Mesh, MeshView, Vertex};
use crate::vector::{Vec3, Vec4};
use vstd::prelude::*;
use vstd::slice::slice_subrange;

verus! {

/// The three numbers that name a corner of a face in a mesh description:
/// which position, which texture coordinate and which normal it has, each
/// counted from 1.
#[derive(Clone, Copy, Debug, PartialEq, Eq, Structural)]
pub struct ObjFaceIndex {
    pub position_index: i32,
    pub texcoords_index: i32,
    pub normal_index: i32,
}

/// A face of a mesh description: the numbers of its three corners.
#[derive(Clone, Copy, Debug)]
pub struct ObjFace {
    pub vertex_indices: [ObjFaceIndex; 3],
}

/// A mesh of a mesh description.
pub struct ObjMesh {
    pub name: Option<String>,
    pub faces: Vec<ObjFace>,
}

/// A word of a line of a mesh description, and the number that it denotes
/// if it denotes one.
pub struct ObjWord {
    pub text: Vec<u8>,
    pub number: Option<Fixed>,
}

/// A line of a mesh description: its words, and the name that it gives to
/// an object if it opens one.
pub struct ObjLine {
    pub words: Vec<ObjWord>,
    pub name: String,
}

/// What a line of a mesh description is about, by its first word.
#[derive(Clone, Copy, Debug, PartialEq, Eq, Structural)]
pub enum LineKind {
    /// `v`: a position.
    Position,
    /// `vt`: a texture coordinate.
    TextureCoords,
    /// `vn`: a normal.
    Normal,
    /// `f`: a face.
    Face,
    /// `o`: the start of an object.
    Object,
    /// A comment, a material, a group, or anything else: the line is
    /// skipped.
    Other,
}

/// Gathers the parts of a mesh description and builds the meshes from them.
pub struct ObjLoader {
    positions: Vec<Vec4>,
    texture_coords: Vec<Vec3>,
    normals: Vec<Vec3>,
    meshes: Vec<ObjMesh>,
}

/// What a mesh of a mesh description holds.
#[verifier::ext_equal]
pub struct ObjMeshView {
    pub name: Option<Seq<char>>,
    pub faces: Seq<Seq<ObjFaceIndex>>,
}

/// What a line holds.
pub struct ObjLineView {
    pub words: Seq<ObjWord>,
    pub name: Seq<char>,
}

/// What a loader has gathered.
#[verifier::ext_equal]
pub struct Description {
    pub positions: Seq<Vec4>,
    pub texture_coords: Seq<Vec3>,
    pub normals: Seq<Vec3>,
    pub meshes: Seq<ObjMeshView>,
}

impl View for ObjMesh {
    type V = ObjMeshView;

    open spec fn view(&self) -> ObjMeshView {
        ObjMeshView {
            name: name_view(self.name),
            faces: Seq::new(self.faces@.len(), |f: int| self.faces@[f].vertex_indices@),
        }
    }
}

impl View for ObjLine {
    type V = ObjLineView;

    open spec fn view(&self) -> ObjLineView {
        ObjLineView { words: self.words@, name: self.name@ }
    }
}

impl View for ObjLoader {
    type V = Description;

    closed spec fn view(&self) -> Description {
        Description {
            positions: self.positions@,
            texture_coords: self.texture_coords@,
            normals: self.normals@,
            meshes: Seq::new(self.meshes@.len(), |m: int| self.meshes@[m]@),
        }
    }
}

impl Default for ObjFaceIndex {
    fn default() -> (index: ObjFaceIndex)
        ensures
            index == (ObjFaceIndex { position_index: 0, texcoords_index: 0, normal_index: 0 }),
    {
        ObjFaceIndex { position_index: 0, texcoords_index: 0, normal_index: 0 }
    }
}

impl Default for ObjFace {
    fn default() -> (face: ObjFace)
        ensures
            forall|k: int| 0 <= k < 3 ==> #[trigger] face.vertex_indices@[k] == (ObjFaceIndex {
                position_index: 0,
                texcoords_index: 0,
                normal_index: 0,
            }),
    {
        let zero = ObjFaceIndex { position_index: 0, texcoords_index: 0, normal_index: 0 };
        ObjFace { vertex_indices: [zero, zero, zero] }
    }
}

/// Whether a byte is a decimal digit.
pub open spec fn is_digit(b: u8) -> bool {
    48 <= b <= 57
}

/// Whether every byte is a decimal digit.
pub open spec fn all_digits(s: Seq<u8>) -> bool {
    forall|i: int| 0 <= i < s.len() ==> is_digit(#[trigger] s[i])
}

/// The number that a sequence of decimal digits denotes.
pub open spec fn digits_value(s: Seq<u8>) -> nat
    decreases s.len(),
{
    if s.len() == 0 {
        0
    } else {
        digits_value(s.drop_last()) * 10 + (s.last() - 48) as nat
    }
}

/// The 32-bit integer that `text` denotes: a `+` or `-` or neither, then one
/// decimal digit or more, and nothing else.
pub open spec fn parse_i32_spec(text: Seq<u8>) -> Option<i32> {
    let negative = text.len() > 0 && text[0] == 45;
    let signed = text.len() > 0 && (text[0] == 45 || text[0] == 43);
    let digits = if signed {
        text.drop_first()
    } else {
        text
    };
    let value = if negative {
        -(digits_value(digits) as int)
    } else {
        digits_value(digits) as int
    };
    if digits.len() == 0 || !all_digits(digits) || value < i32::MIN || value > i32::MAX {
        None
    } else {
        Some(value as i32)
    }
}

/// The index of the first `/` in `s`, or the length of `s` if it has none.
pub open spec fn first_slash(s: Seq<u8>) -> int
    decreases s.len(),
{
    if s.len() == 0 || s[0] == 47 {
        0
    } else {
        1 + first_slash(s.drop_first())
    }
}

/// Part `k` of the parts that `/` divides `s` into, if there are so many.
pub open spec fn part(s: Seq<u8>, k: nat) -> Option<Seq<u8>>
    decreases k,
{
    let i = first_slash(s);
    if k == 0 {
        Some(s.subrange(0, i))
    } else if i >= s.len() {
        None
    } else {
        part(s.subrange(i + 1, s.len() as int), (k - 1) as nat)
    }
}

/// The number in a part that may be left out or left empty: 1 where the
/// part is missing or denotes no number.
pub open spec fn optional_index(text: Option<Seq<u8>>) -> i32 {
    match text {
        Some(t) => match parse_i32_spec(t) {
            Some(v) => v,
            None => 1,
        },
        None => 1,
    }
}

/// What a word of a face line names: `position`, `position/texture` or
/// `position/texture/normal`; `None` where the position is no number.
pub open spec fn parse_face_indices_spec(word: Seq<u8>) -> Option<ObjFaceIndex> {
    match parse_i32_spec(part(word, 0).unwrap()) {
        None => None,
        Some(position_index) => Some(
            ObjFaceIndex {
                position_index,
                texcoords_index: optional_index(part(word, 1)),
                normal_index: optional_index(part(word, 2)),
            },
        ),
    }
}

/// The number that word `i` of a line denotes, if there is such a word and
/// it denotes one.
pub open spec fn number_of(words: Seq<ObjWord>, i: int) -> Option<Fixed> {
    if 0 <= i < words.len() {
        words[i].number
    } else {
        None
    }
}

/// What a line is about whose first word is `prefix`.
pub open spec fn line_kind_spec(prefix: Seq<u8>) -> LineKind {
    if prefix == seq![118u8] {
        LineKind::Position
    } else if prefix == seq![118u8, 116u8] {
        LineKind::TextureCoords
    } else if prefix == seq![118u8, 110u8] {
        LineKind::Normal
    } else if prefix == seq![102u8] {
        LineKind::Face
    } else if prefix == seq![111u8] {
        LineKind::Object
    } else {
        LineKind::Other
    }
}

/// The position that a position line names: the three numbers behind its
/// first word, and a fourth where the line goes on with a number, else 1;
/// `None` where one of the three is missing or no number.
pub open spec fn parse_position_spec(words: Seq<ObjWord>) -> Option<Vec4> {
    match (number_of(words, 1), number_of(words, 2), number_of(words, 3)) {
        (Some(x), Some(y), Some(z)) => Some(
            Vec4 {
                x,
                y,
                z,
                w: match number_of(words, 4) {
                    Some(w) => w,
                    None => ONE,
                },
            },
        ),
        _ => None,
    }
}

/// The texture coordinate that a texture coordinate line names: the two
/// numbers behind its first word, and a third where the line goes on with a
/// number, else 1; `None` where one of the two is missing or no number.
pub open spec fn parse_texture_coords_spec(words: Seq<ObjWord>) -> Option<Vec3> {
    match (number_of(words, 1), number_of(words, 2)) {
        (Some(u), Some(v)) => Some(
            Vec3 {
                x: u,
                y: v,
                z: match number_of(words, 3) {
                    Some(w) => w,
                    None => ONE,
                },
            },
        ),
        _ => None,
    }
}

/// The normal that a normal line names: the three numbers behind its first
/// word; `None` where one of them is missing or no number.
pub open spec fn parse_normal_spec(words: Seq<ObjWord>) -> Option<Vec3> {
    match (number_of(words, 1), number_of(words, 2), number_of(words, 3)) {
        (Some(x), Some(y), Some(z)) => Some(Vec3 { x, y, z }),
        _ => None,
    }
}

/// The three corners that a face line names by the three words behind its
/// first word; `None` where a word is missing or names no corner.
pub open spec fn parse_face_spec(words: Seq<ObjWord>) -> Option<Seq<ObjFaceIndex>> {
    if words.len() < 4 {
        None
    } else {
        match (
            parse_face_indices_spec(words[1].text@),
            parse_face_indices_spec(words[2].text@),
            parse_face_indices_spec(words[3].text@),
        ) {
            (Some(a), Some(b), Some(c)) => Some(seq![a, b, c]),
            _ => None,
        }
    }
}

/// The digits of a part of a number are worth no more than the whole.
proof fn lemma_digits_monotone(s: Seq<u8>, k: int)
    requires
        0 <= k <= s.len(),
        all_digits(s),
    ensures
        digits_value(s.subrange(0, k)) <= digits_value(s),
    decreases s.len() - k,
{
    if k == s.len() {
        assert(s.subrange(0, k) =~= s);
    } else {
        lemma_digits_monotone(s.drop_last(), k);
        assert(s.drop_last().subrange(0, k) =~= s.subrange(0, k));
    }
}

/// Where the first `/` stands.
proof fn lemma_first_slash(s: Seq<u8>, i: int)
    requires
        0 <= i <= s.len(),
        forall|k: int| 0 <= k < i ==> s[k] != 47,
        i == s.len() || s[i] == 47,
    ensures
        first_slash(s) == i,
    decreases i,
{
    if i > 0 {
        lemma_first_slash(s.drop_first(), i - 1);
    }
}

/// Reads a 32-bit integer.
pub fn parse_i32(text: &[u8]) -> (value: Option<i32>)
    ensures
        value == parse_i32_spec(text@),
{
    let n = text.len();
    if n == 0 {
        return None;
    }
    let negative = text[0] == 45;
    let start: usize = if text[0] == 45 || text[0] == 43 {
        1
    } else {
        0
    };
    let ghost digits = text@.subrange(start as int, n as int);
    assert(digits =~= if start == 1 {
        text@.drop_first()
    } else {
        text@
    });
    if start == n {
        return None;
    }
    let mut acc: i64 = 0;
    let mut i: usize = start;
    while i < n
        invariant
            start <= i <= n,
            n == text@.len(),
            n > 0,
            digits.len() == n - start,
            digits == if text@[0] == 45 || text@[0] == 43 {
                text@.drop_first()
            } else {
                text@
            },
            forall|k: int| 0 <= k < digits.len() ==> digits[k] == text@[start + k],
            all_digits(digits.subrange(0, i - start)),
            acc == digits_value(digits.subrange(0, i - start)),
            0 <= acc <= 2147483648,
        decreases n - i,
    {
        let b = text[i];
        if b < 48 || b > 57 {
            assert(!is_digit(digits[i - start]));
            return None;
        }
        let ghost prefix = digits.subrange(0, i + 1 - start);
        assert(prefix.drop_last() =~= digits.subrange(0, i - start));
        assert(prefix.last() == b);
        acc = acc * 10 + (b - 48) as i64;
        if acc > 2147483648 {
            proof {
                if all_digits(digits) {
                    lemma_digits_monotone(digits, i + 1 - start);
                }
            }
            return None;
        }
        i += 1;
    }
    assert(digits.subrange(0, i - start) =~= digits);
    let value = if negative {
        -acc
    } else {
        acc
    };
    if value < -2147483648 || value > 2147483647 {
        None
    } else {
        Some(value as i32)
    }
}

/// The index of the first `/` at or behind `from`, or the length of `word`.
fn find_slash(word: &[u8], from: usize) -> (at: usize)
    requires
        from <= word@.len(),
    ensures
        from <= at <= word@.len(),
        at == from + first_slash(word@.subrange(from as int, word@.len() as int)),
{
    let n = word.len();
    let mut i = from;
    while i < n && word[i] != 47
        invariant
            from <= i <= n,
            n == word@.len(),
            forall|k: int| from <= k < i ==> word@[k] != 47,
        decreases n - i,
    {
        i += 1;
    }
    proof {
        lemma_first_slash(word@.subrange(from as int, n as int), i - from);
    }
    i
}

/// Reads a word of a face line.
pub fn parse_face_indices(word: &[u8]) -> (index: Option<ObjFaceIndex>)
    ensures
        index == parse_face_indices_spec(word@),
{
    let n = word.len();
    let ghost whole = word@;
    assert(whole.subrange(0, n as int) =~= whole);
    let first_end = find_slash(word, 0);
    let position_index = match parse_i32(slice_subrange(word, 0, first_end)) {
        Some(v) => v,
        None => {
            return None;
        },
    };
    let mut texcoords_index: i32 = 1;
    let mut normal_index: i32 = 1;
    if first_end < n {
        let ghost second = whole.subrange(first_end + 1, n as int);
        let second_end = find_slash(word, first_end + 1);
        assert(whole.subrange(first_end + 1, second_end as int) =~= second.subrange(
            0,
            first_slash(second),
        ));
        match parse_i32(slice_subrange(word, first_end + 1, second_end)) {
            Some(v) => {
                texcoords_index = v;
            },
            None => {},
        }
        if second_end < n {
            let ghost third = whole.subrange(second_end + 1, n as int);
            assert(third =~= second.subrange(first_slash(second) + 1, second.len() as int));
            let third_end = find_slash(word, second_end + 1);
            assert(whole.subrange(second_end + 1, third_end as int) =~= third.subrange(
                0,
                first_slash(third),
            ));
            match parse_i32(slice_subrange(word, second_end + 1, third_end)) {
                Some(v) => {
                    normal_index = v;
                },
                None => {},
            }
            assert(part(whole, 2) == part(second, 1));
            assert(part(second, 1) == part(third, 0));
        } else {
            assert(part(whole, 2) == part(second, 1));
        }
        assert(part(whole, 1) == part(second, 0));
    }
    Some(ObjFaceIndex { position_index, texcoords_index, normal_index })
}

/// The meshes once a face line has been met: the first face of a
/// description that names no mesh opens a mesh without a name.
pub open spec fn started(meshes: Seq<ObjMeshView>) -> Seq<ObjMeshView> {
    if meshes.len() == 0 {
        seq![ObjMeshView { name: None, faces: Seq::empty() }]
    } else {
        meshes
    }
}

/// The meshes with a face added to the last of them, if there is a face.
pub open spec fn with_face(meshes: Seq<ObjMeshView>, face: Option<Seq<ObjFaceIndex>>) -> Seq<
    ObjMeshView,
> {
    match face {
        None => meshes,
        Some(corners) => meshes.update(
            meshes.len() - 1,
            ObjMeshView { name: meshes.last().name, faces: meshes.last().faces.push(corners) },
        ),
    }
}

/// The pool that is used where a description names no texture coordinate,
/// or no normal: the unit vector along `z` alone.
pub open spec fn with_default(pool: Seq<Vec3>) -> Seq<Vec3> {
    if pool.len() == 0 {
        seq![Vertex::unit_z()]
    } else {
        pool
    }
}

/// Whether the three numbers of a corner each name an entry of their pool.
pub open spec fn corner_ok(
    corner: ObjFaceIndex,
    positions: Seq<Vec4>,
    texture_coords: Seq<Vec3>,
    normals: Seq<Vec3>,
) -> bool {
    &&& 1 <= corner.position_index <= positions.len()
    &&& 1 <= corner.texcoords_index <= texture_coords.len()
    &&& 1 <= corner.normal_index <= normals.len()
}

/// The vertex that the three numbers of a corner name.
pub open spec fn vertex_of(
    corner: ObjFaceIndex,
    positions: Seq<Vec4>,
    texture_coords: Seq<Vec3>,
    normals: Seq<Vec3>,
) -> Vertex {
    Vertex {
        position: positions[corner.position_index - 1],
        texture_coords: texture_coords[corner.texcoords_index - 1],
        normals: normals[corner.normal_index - 1],
    }
}

/// Whether every corner of every face names entries of the pools.
pub open spec fn resolvable(
    meshes: Seq<ObjMeshView>,
    positions: Seq<Vec4>,
    texture_coords: Seq<Vec3>,
    normals: Seq<Vec3>,
) -> bool {
    forall|m: int, f: int, k: int|
        0 <= m < meshes.len() && 0 <= f < meshes[m].faces.len() && 0 <= k < 3 ==> corner_ok(
            #[trigger] meshes[m].faces[f][k],
            positions,
            texture_coords,
            normals,
        )
}

/// The mesh with every corner replaced by the vertex that it names.
pub open spec fn resolved(
    mesh: ObjMeshView,
    positions: Seq<Vec4>,
    texture_coords: Seq<Vec3>,
    normals: Seq<Vec3>,
) -> MeshView {
    MeshView {
        name: mesh.name,
        faces: Seq::new(
            mesh.faces.len(),
            |f: int|
                Seq::new(
                    3,
                    |k: int| vertex_of(mesh.faces[f][k], positions, texture_coords, normals),
                ),
        ),
    }
}

/// What the meshes are built from: the description with the pools that
/// stand in where it names no texture coordinate, or no normal.
pub open spec fn completed(d: Description) -> Description {
    Description {
        positions: d.positions,
        texture_coords: with_default(d.texture_coords),
        normals: with_default(d.normals),
        meshes: d.meshes,
    }
}

/// Whether the meshes of a description can be built.
pub open spec fn buildable(d: Description) -> bool {
    resolvable(d.meshes, d.positions, with_default(d.texture_coords), with_default(d.normals))
}

/// The meshes of a description, if they can be built.
pub open spec fn built(d: Description) -> Option<Seq<MeshView>> {
    if buildable(d) {
        Some(
            Seq::new(
                d.meshes.len(),
                |m: int|
                    resolved(
                        d.meshes[m],
                        d.positions,
                        with_default(d.texture_coords),
                        with_default(d.normals),
                    ),
            ),
        )
    } else {
        None
    }
}

/// What a loader holds once it has tried to build the meshes: the
/// completed description, without the meshes if they were built.
pub open spec fn after_build(d: Description) -> Description {
    if buildable(d) {
        Description { meshes: Seq::empty(), ..completed(d) }
    } else {
        completed(d)
    }
}

/// What the built meshes hold.
pub open spec fn meshes_view(meshes: Option<Vec<Mesh>>) -> Option<Seq<MeshView>> {
    match meshes {
        Some(built) => Some(Seq::new(built@.len(), |m: int| built@[m]@)),
        None => None,
    }
}

/// The description after a line has been taken in.
pub open spec fn after_line(d: Description, line: ObjLineView) -> Description {
    if line.words.len() == 0 {
        d
    } else {
        match line_kind_spec(line.words[0].text@) {
            LineKind::Position => match parse_position_spec(line.words) {
                Some(position) => Description { positions: d.positions.push(position), ..d },
                None => d,
            },
            LineKind::TextureCoords => match parse_texture_coords_spec(line.words) {
                Some(texture_coords) => Description {
                    texture_coords: d.texture_coords.push(texture_coords),
                    ..d
                },
                None => d,
            },
            LineKind::Normal => match parse_normal_spec(line.words) {
                Some(normal) => Description { normals: d.normals.push(normal), ..d },
                None => d,
            },
            LineKind::Face => Description {
                meshes: with_face(started(d.meshes), parse_face_spec(line.words)),
                ..d
            },
            LineKind::Object => Description {
                meshes: d.meshes.push(ObjMeshView { name: Some(line.name), faces: Seq::empty() }),
                ..d
            },
            LineKind::Other => d,
        }
    }
}

/// The description after the lines have been taken in, the first one first.
pub open spec fn after_lines(d: Description, lines: Seq<ObjLine>) -> Description
    decreases lines.len(),
{
    if lines.len() == 0 {
        d
    } else {
        after_line(after_lines(d, lines.drop_last()), lines.last()@)
    }
}

/// A description of nothing.
pub open spec fn nothing() -> Description {
    Description {
        positions: Seq::empty(),
        texture_coords: Seq::empty(),
        normals: Seq::empty(),
        meshes: Seq::empty(),
    }
}

/// Computes `number_of`.
fn number(words: &Vec<ObjWord>, i: usize) -> (n: Option<Fixed>)
    ensures
        n == number_of(words@, i as int),
{
    if i < words.len() {
        words[i].number
    } else {
        None
    }
}

/// What a line is about whose first word is `prefix`.
pub fn line_kind(prefix: &Vec<u8>) -> (kind: LineKind)
    ensures
        kind == line_kind_spec(prefix@),
{
    let n = prefix.len();
    if n == 1 && prefix[0] == 118 {
        assert(prefix@ =~= seq![118u8]);
        LineKind::Position
    } else if n == 2 && prefix[0] == 118 && prefix[1] == 116 {
        assert(prefix@ =~= seq![118u8, 116u8]);
        LineKind::TextureCoords
    } else if n == 2 && prefix[0] == 118 && prefix[1] == 110 {
        assert(prefix@ =~= seq![118u8, 110u8]);
        LineKind::Normal
    } else if n == 1 && prefix[0] == 102 {
        assert(prefix@ =~= seq![102u8]);
        LineKind::Face
    } else if n == 1 && prefix[0] == 111 {
        assert(prefix@ =~= seq![111u8]);
        LineKind::Object
    } else {
        assert(seq![118u8].len() == 1 && seq![118u8][0] == 118);
        assert(seq![118u8, 116u8].len() == 2 && seq![118u8, 116u8][0] == 118 && seq![
            118u8,
            116u8,
        ][1] == 116);
        assert(seq![118u8, 110u8].len() == 2 && seq![118u8, 110u8][0] == 118 && seq![
            118u8,
            110u8,
        ][1] == 110);
        assert(seq![102u8].len() == 1 && seq![102u8][0] == 102);
        assert(seq![111u8].len() == 1 && seq![111u8][0] == 111);
        LineKind::Other
    }
}

impl ObjLoader {
    /// A loader that has gathered nothing.
    pub fn new() -> (loader: ObjLoader)
        ensures
            loader@ == nothing(),
    {
        let loader = Self {
            positions: Vec::new(),
            texture_coords: Vec::new(),
            normals: Vec::new(),
            meshes: Vec::new(),
        };
        assert(loader@ =~= nothing());
        loader
    }

    /// Forgets what was gathered.
    fn reset(&mut self)
        ensures
            final(self)@ == nothing(),
    {
        self.positions.clear();
        self.texture_coords.clear();
        self.normals.clear();
        self.meshes.clear();
        assert(self@ =~= nothing());
    }

    /// Reads a mesh description, given line by line, and builds its meshes.
    /// What was gathered before is forgotten. Nothing is built where a face
    /// names a position, a texture coordinate or a normal that the
    /// description does not hold.
    pub fn parse(&mut self, lines: &Vec<ObjLine>) -> (meshes: Option<Vec<Mesh>>)
        ensures
            final(self)@ == after_build(after_lines(nothing(), lines@)),
            meshes_view(meshes) == built(after_lines(nothing(), lines@)),
    {
        self.reset();
        let mut i: usize = 0;
        while i < lines.len()
            invariant
                i <= lines@.len(),
                self@ == after_lines(nothing(), lines@.take(i as int)),
            decreases lines@.len() - i,
        {
            assert(lines@.take(i + 1).drop_last() =~= lines@.take(i as int));
            self.parse_line(&lines[i]);
            i += 1;
        }
        assert(lines@.take(i as int) =~= lines@);
        self.build()
    }

    /// Takes in one line.
    pub fn parse_line(&mut self, line: &ObjLine)
        ensures
            final(self)@ == after_line(old(self)@, line@),
    {
        if line.words.len() == 0 {
            return ;
        }
        match line_kind(&line.words[0].text) {
            LineKind::Position => self.parse_position(&line.words),
            LineKind::TextureCoords => self.parse_texture_coords(&line.words),
            LineKind::Normal => self.parse_normal(&line.words),
            LineKind::Face => self.parse_face(&line.words),
            LineKind::Object => self.parse_object(line.name.clone()),
            LineKind::Other => {},
        }
    }

    /// Takes in a position line.
    fn parse_position(&mut self, words: &Vec<ObjWord>)
        ensures
            final(self)@ == match parse_position_spec(words@) {
                Some(position) => Description {
                    positions: old(self)@.positions.push(position),
                    ..old(self)@
                },
                None => old(self)@,
            },
    {
        let x = match number(words, 1) {
            Some(x) => x,
            None => {
                return ;
            },
        };
        let y = match number(words, 2) {
            Some(y) => y,
            None => {
                return ;
            },
        };
        let z = match number(words, 3) {
            Some(z) => z,
            None => {
                return ;
            },
        };
        let w = match number(words, 4) {
            Some(w) => w,
            None => ONE,
        };
        self.positions.push(Vec4::new(x, y, z, w));
        assert(self@ =~= Description {
            positions: old(self)@.positions.push(Vec4 { x, y, z, w }),
            ..old(self)@
        });
    }

    /// Takes in a texture coordinate line.
    fn parse_texture_coords(&mut self, words: &Vec<ObjWord>)
        ensures
            final(self)@ == match parse_texture_coords_spec(words@) {
                Some(texture_coords) => Description {
                    texture_coords: old(self)@.texture_coords.push(texture_coords),
                    ..old(self)@
                },
                None => old(self)@,
            },
    {
        let u = match number(words, 1) {
            Some(u) => u,
            None => {
                return ;
            },
        };
        let v = match number(words, 2) {
            Some(v) => v,
            None => {
                return ;
            },
        };
        let w = match number(words, 3) {
            Some(w) => w,
            None => ONE,
        };
        self.texture_coords.push(Vec3::new(u, v, w));
        assert(self@ =~= Description {
            texture_coords: old(self)@.texture_coords.push(Vec3 { x: u, y: v, z: w }),
            ..old(self)@
        });
    }

    /// Takes in a normal line.
    fn parse_normal(&mut self, words: &Vec<ObjWord>)
        ensures
            final(self)@ == match parse_normal_spec(words@) {
                Some(normal) => Description {
                    normals: old(self)@.normals.push(normal),
                    ..old(self)@
                },
                None => old(self)@,
            },
    {
        let x = match number(words, 1) {
            Some(x) => x,
            None => {
                return ;
            },
        };
        let y = match number(words, 2) {
            Some(y) => y,
            None => {
                return ;
            },
        };
        let z = match number(words, 3) {
            Some(z) => z,
            None => {
                return ;
            },
        };
        self.normals.push(Vec3::new(x, y, z));
        assert(self@ =~= Description {
            normals: old(self)@.normals.push(Vec3 { x, y, z }),
            ..old(self)@
        });
    }

    /// Takes in a face line: the face joins the mesh that was opened last,
    /// and opens a mesh without a name if none was opened. A line with
    /// fewer than three words behind the first, or with a word among them
    /// that names no corner, adds no face.
    fn parse_face(&mut self, words: &Vec<ObjWord>)
        ensures
            final(self)@ == (Description {
                meshes: with_face(started(old(self)@.meshes), parse_face_spec(words@)),
                ..old(self)@
            }),
    {
        if self.meshes.len() == 0 {
            self.meshes.push(ObjMesh { name: None, faces: Vec::new() });
        }
        proof {
            if old(self)@.meshes.len() == 0 {
                assert(self.meshes@[0]@.faces =~= Seq::<Seq<ObjFaceIndex>>::empty());
            }
            assert(self@.meshes =~= started(old(self)@.meshes));
        }
        if words.len() < 4 {
            return ;
        }
        let a = match parse_face_indices(words[1].text.as_slice()) {
            Some(index) => index,
            None => {
                return ;
            },
        };
        let b = match parse_face_indices(words[2].text.as_slice()) {
            Some(index) => index,
            None => {
                return ;
            },
        };
        let c = match parse_face_indices(words[3].text.as_slice()) {
            Some(index) => index,
            None => {
                return ;
            },
        };
        let face = ObjFace { vertex_indices: [a, b, c] };
        assert(face.vertex_indices@ =~= seq![a, b, c]);
        let ghost opened = self@.meshes;
        let last = self.meshes.len() - 1;
        self.meshes[last].faces.push(face);
        assert(self@.meshes[last as int].faces =~= opened[last as int].faces.push(seq![a, b, c]));
        assert(self@.meshes =~= with_face(opened, Some(seq![a, b, c])));
    }

    /// Takes in an object line: a mesh with the given name is opened.
    fn parse_object(&mut self, name: String)
        ensures
            final(self)@ == (Description {
                meshes: old(self)@.meshes.push(
                    ObjMeshView { name: Some(name@), faces: Seq::empty() },
                ),
                ..old(self)@
            }),
    {
        self.meshes.push(ObjMesh { name: Some(name), faces: Vec::new() });
        assert(self.meshes@.last()@.faces =~= Seq::<Seq<ObjFaceIndex>>::empty());
        assert(self@.meshes =~= old(self)@.meshes.push(
            ObjMeshView { name: Some(name@), faces: Seq::empty() },
        ));
    }

    /// The vertex that a corner names.
    fn resolve_corner(&self, corner: &ObjFaceIndex) -> (vertex: Option<Vertex>)
        ensures
            vertex is Some <==> corner_ok(
                *corner,
                self@.positions,
                self@.texture_coords,
                self@.normals,
            ),
            vertex matches Some(v) ==> v == vertex_of(
                *corner,
                self@.positions,
                self@.texture_coords,
                self@.normals,
            ),
    {
        if corner.position_index < 1 || corner.texcoords_index < 1 || corner.normal_index < 1 {
            return None;
        }
        let p = (corner.position_index - 1) as usize;
        let t = (corner.texcoords_index - 1) as usize;
        let n = (corner.normal_index - 1) as usize;
        if p >= self.positions.len() || t >= self.texture_coords.len() || n >= self.normals.len() {
            return None;
        }
        Some(
            Vertex {
                position: self.positions[p],
                texture_coords: self.texture_coords[t],
                normals: self.normals[n],
            },
        )
    }

    /// Builds the meshes of the description that was gathered, and forgets
    /// them. Where the description names no texture coordinate, or no
    /// normal, the unit vector along `z` stands in. Nothing is built, and
    /// the description is kept, where a corner names an entry that the
    /// description does not hold.
    #[verifier::loop_isolation(false)]
    fn build(&mut self) -> (meshes: Option<Vec<Mesh>>)
        ensures
            final(self)@ == after_build(old(self)@),
            meshes_view(meshes) == built(old(self)@),
    {
        if self.texture_coords.len() == 0 {
            self.texture_coords.push(Vec3::new(0, 0, ONE));
        }
        if self.normals.len() == 0 {
            self.normals.push(Vec3::new(0, 0, ONE));
        }
        assert(self@ =~= completed(old(self)@));
        let ghost described = self@.meshes;
        let ghost positions = self@.positions;
        let ghost texture_coords = self@.texture_coords;
        let ghost normals = self@.normals;
        let mut meshes: Vec<Mesh> = Vec::with_capacity(self.meshes.len());
        let mut m: usize = 0;
        while m < self.meshes.len()
            invariant
                m <= self.meshes@.len(),
                meshes@.len() == m,
                forall|i: int|
                    0 <= i < m ==> (#[trigger] meshes@[i])@ == resolved(
                        described[i],
                        positions,
                        texture_coords,
                        normals,
                    ),
                forall|i: int, f: int, k: int|
                    0 <= i < m && 0 <= f < described[i].faces.len() && 0 <= k < 3 ==> corner_ok(
                        #[trigger] described[i].faces[f][k],
                        positions,
                        texture_coords,
                        normals,
                    ),
            decreases self.meshes@.len() - m,
        {
            let mut faces: Vec<Face> = Vec::new();
            let mut f: usize = 0;
            assert(described[m as int] == self.meshes@[m as int]@);
            while f < self.meshes[m].faces.len()
                invariant
                    f <= self.meshes@[m as int].faces@.len(),
                    faces@.len() == f,
                    forall|i: int|
                        0 <= i < f ==> (#[trigger] faces@[i]).vertices@ =~= Seq::new(
                            3,
                            |k: int|
                                vertex_of(
                                    described[m as int].faces[i][k],
                                    positions,
                                    texture_coords,
                                    normals,
                                ),
                        ),
                    forall|i: int, k: int|
                        0 <= i < f && 0 <= k < 3 ==> corner_ok(
                            #[trigger] described[m as int].faces[i][k],
                            positions,
                            texture_coords,
                            normals,
                        ),
                decreases self.meshes@[m as int].faces@.len() - f,
            {
                let corners = &self.meshes[m].faces[f].vertex_indices;
                assert(described[m as int].faces[f as int] == corners@);
                let a = match self.resolve_corner(&corners[0]) {
                    Some(v) => v,
                    None => {
                        assert(!buildable(old(self)@));
                        return None;
                    },
                };
                let b = match self.resolve_corner(&corners[1]) {
                    Some(v) => v,
                    None => {
                        assert(!buildable(old(self)@));
                        return None;
                    },
                };
                let c = match self.resolve_corner(&corners[2]) {
                    Some(v) => v,
                    None => {
                        assert(!buildable(old(self)@));
                        return None;
                    },
                };
                faces.push(Face { vertices: [a, b, c] });
                f += 1;
            }
            let name = match &self.meshes[m].name {
                Some(s) => Some(s.clone()),
                None => None,
            };
            let mesh = Mesh { name, faces };
            assert(mesh@.faces =~= resolved(
                described[m as int],
                positions,
                texture_coords,
                normals,
            ).faces);
            meshes.push(mesh);
            m += 1;
        }
        self.meshes.clear();
        assert(buildable(old(self)@));
        assert(self@ =~= after_build(old(self)@));
        assert(meshes_view(Some(meshes)).unwrap() =~= built(old(self)@).unwrap());
        Some(meshes)
    }
}

} // verus!
