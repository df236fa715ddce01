//! Mesh assembly and vertex deduplication.
//!
//! A loaded model arrives as flat attribute arrays plus per-corner
//! attribute indices. The renderer gathers one vertex per mesh corner and
//! deduplicates: the first occurrence of an attribute tuple is kept and
//! every later occurrence reuses its index. Attribute components are
//! carried as the IEEE-754 bit patterns of the file's 32-bit floats, so
//! two vertices are the same exactly when their stored words are.

use vstd::prelude::*;

verus! {

/// The bit pattern of the constant 1.0 attribute value, used as the
/// color of every loaded vertex.
pub const COLOR_ONE_BITS: u32 = 0x3F80_0000;

/// One vertex of the loaded model: position, color and texture
/// coordinates, each component a 32-bit float's bit pattern.
#[derive(Clone, Copy, Debug, PartialEq, Eq, Structural)]
pub struct Vertex3 {
    pub pos_x: u32,
    pub pos_y: u32,
    pub pos_z: u32,
    pub color_r: u32,
    pub color_g: u32,
    pub color_b: u32,
    pub tex_u: u32,
    pub tex_v: u32,
}

/// Why mesh assembly can fail.
#[derive(Clone, Copy, Debug, PartialEq, Eq, Structural)]
pub enum VertexError {
    /// The index arrays disagree in length, or an attribute index points
    /// outside its attribute array.
    MalformedMesh,
}

impl VertexError {
    /// A short description of the error.
    pub fn message(&self) -> (r: &'static str)
        ensures
            r@ =~= "malformed mesh: mismatched or out-of-range attribute indices"@,
    {
        "malformed mesh: mismatched or out-of-range attribute indices"
    }
}

/// Whether the mesh renders flat 2D content or the full 3D scene.
#[derive(Clone, Copy, Debug, PartialEq, Eq, Structural)]
pub enum SpaceDimension {
    D3,
    D2,
}

impl Default for SpaceDimension {
    /// The renderer's default is the 3D path.
    fn default() -> (r: Self)
        ensures
            r == SpaceDimension::D3,
    {
        SpaceDimension::D3
    }
}

/// `s` with duplicates removed, keeping the first occurrence of each
/// vertex, in first-seen order.
pub open spec fn dedup_seq(s: Seq<Vertex3>) -> Seq<Vertex3>
    decreases s.len(),
{
    if s.len() == 0 {
        Seq::empty()
    } else {
        let prefix = dedup_seq(s.drop_last());
        if prefix.contains(s.last()) {
            prefix
        } else {
            prefix.push(s.last())
        }
    }
}

/// Deduplication keeps exactly the set of vertices that occur.
pub proof fn lemma_dedup_contains(s: Seq<Vertex3>, v: Vertex3)
    ensures
        dedup_seq(s).contains(v) <==> s.contains(v),
    decreases s.len(),
{
    if s.len() > 0 {
        lemma_dedup_contains(s.drop_last(), v);
        let prefix = dedup_seq(s.drop_last());
        assert(s.contains(v) <==> (s.drop_last().contains(v) || s.last() == v)) by {
            if s.contains(v) {
                let i = choose|i: int| 0 <= i < s.len() && s[i] == v;
                if i < s.len() - 1 {
                    assert(s.drop_last()[i] == v);
                }
            }
            if s.drop_last().contains(v) {
                let i = choose|i: int|
                    0 <= i < s.drop_last().len() && s.drop_last()[i] == v;
                assert(s[i] == v);
            }
            if s.last() == v {
                assert(s[s.len() - 1] == v);
            }
        }
        if !prefix.contains(s.last()) {
            assert(prefix.push(s.last()).contains(v) <==> (prefix.contains(v) || v == s.last()))
                by {
                if prefix.push(s.last()).contains(v) {
                    let i = choose|i: int|
                        0 <= i < prefix.push(s.last()).len() && prefix.push(s.last())[i] == v;
                    if i < prefix.len() {
                        assert(prefix[i] == v);
                    }
                }
                if prefix.contains(v) {
                    let i = choose|i: int| 0 <= i < prefix.len() && prefix[i] == v;
                    assert(prefix.push(s.last())[i] == v);
                }
                if v == s.last() {
                    assert(prefix.push(s.last())[prefix.len() as int] == v);
                }
            }
        }
    }
}

/// A deduplicated sequence holds no vertex twice.
pub proof fn lemma_dedup_distinct(s: Seq<Vertex3>)
    ensures
        forall|i: int, j: int| 0 <= i < j < dedup_seq(s).len()
            ==> dedup_seq(s)[i] != dedup_seq(s)[j],
    decreases s.len(),
{
    if s.len() > 0 {
        lemma_dedup_distinct(s.drop_last());
        let prefix = dedup_seq(s.drop_last());
        if !prefix.contains(s.last()) {
            assert forall|i: int, j: int| 0 <= i < j < dedup_seq(s).len()
                implies dedup_seq(s)[i] != dedup_seq(s)[j] by {
                if j < dedup_seq(s).len() - 1 {
                    assert(dedup_seq(s)[i] == prefix[i] && dedup_seq(s)[j] == prefix[j]);
                } else {
                    assert(dedup_seq(s)[j] == s.last());
                    assert(prefix[i] == dedup_seq(s)[i]);
                    assert(prefix.contains(prefix[i]));
                }
            }
        }
    }
}

/// A mesh whose corners all carry the same attribute tuple dedups to a
/// single vertex entry.
pub proof fn lemma_dedup_repeated(s: Seq<Vertex3>, v: Vertex3)
    requires
        s.len() > 0,
        forall|i: int| 0 <= i < s.len() ==> s[i] == v,
    ensures
        dedup_seq(s) =~= seq![v],
    decreases s.len(),
{
    if s.len() == 1 {
        assert(dedup_seq(s.drop_last()) =~= Seq::<Vertex3>::empty());
    } else {
        lemma_dedup_repeated(s.drop_last(), v);
        assert(dedup_seq(s.drop_last())[0] == v);
        assert(dedup_seq(s.drop_last()).contains(v));
        assert(s.last() == s[s.len() - 1]);
    }
}

/// Removes duplicate vertices, keeping first occurrences in order, and
/// maps every input position to the index its vertex got. The index list
/// has one 32-bit entry per input vertex, and entries for equal inputs
/// are equal, because the kept vertices are distinct.
pub fn dedup_vertices(input: &Vec<Vertex3>) -> (r: (Vec<Vertex3>, Vec<u32>))
    requires
        input@.len() <= u32::MAX,
    ensures
        r.0@ == dedup_seq(input@),
        r.1@.len() == input@.len(),
        forall|k: int| 0 <= k < input@.len()
            ==> (#[trigger] r.1@[k] as int) < r.0@.len() && r.0@[r.1@[k] as int] == input@[k],
{
    let n = input.len();
    let mut vertices: Vec<Vertex3> = Vec::new();
    let mut indices: Vec<u32> = Vec::new();
    for i in 0..n
        invariant
            n == input@.len(),
            n <= u32::MAX,
            vertices@ == dedup_seq(input@.take(i as int)),
            vertices@.len() <= i,
            indices@.len() == i,
            forall|k: int| 0 <= k < i
                ==> (#[trigger] indices@[k] as int) < vertices@.len()
                    && vertices@[indices@[k] as int] == input@[k],
    {
        let v = input[i];
        let m = vertices.len();
        let mut found: Option<usize> = None;
        for j in 0..m
            invariant
                m == vertices@.len(),
                v == input@[i as int],
                match found {
                    Some(f) => (f as int) < m && vertices@[f as int] == v,
                    None => forall|jj: int| 0 <= jj < j ==> vertices@[jj] != v,
                },
        {
            if found.is_none() && vertices[j] == v {
                found = Some(j);
            }
        }
        proof {
            assert(input@.take(i + 1).drop_last() =~= input@.take(i as int));
            assert(input@.take(i + 1).last() == input@[i as int]);
        }
        match found {
            Some(j) => {
                proof {
                    assert(vertices@.contains(v));
                }
                indices.push(j as u32);
            },
            None => {
                proof {
                    assert(!vertices@.contains(v));
                }
                let j = vertices.len();
                vertices.push(v);
                indices.push(j as u32);
            },
        }
    }
    proof {
        assert(input@.take(n as int) =~= input@);
    }
    (vertices, indices)
}

/// Whether the flat attribute arrays and per-corner index arrays form a
/// well-shaped mesh: equally many position and texture indices, each
/// pointing at a whole attribute tuple inside its array.
pub open spec fn mesh_well_formed(
    positions: Seq<u32>,
    texcoords: Seq<u32>,
    pos_indices: Seq<u32>,
    tex_indices: Seq<u32>,
) -> bool {
    &&& pos_indices.len() == tex_indices.len()
    &&& (forall|k: int| 0 <= k < pos_indices.len()
        ==> 3 * (#[trigger] pos_indices[k] as int) + 2 < positions.len())
    &&& (forall|k: int| 0 <= k < tex_indices.len()
        ==> 2 * (#[trigger] tex_indices[k] as int) + 1 < texcoords.len())
}

/// The vertex gathered for one mesh corner: its position triple, the
/// constant white color, and its texture coordinate pair.
pub open spec fn assembled_vertex(
    positions: Seq<u32>,
    texcoords: Seq<u32>,
    pi: int,
    ti: int,
) -> Vertex3 {
    Vertex3 {
        pos_x: positions[3 * pi],
        pos_y: positions[3 * pi + 1],
        pos_z: positions[3 * pi + 2],
        color_r: COLOR_ONE_BITS,
        color_g: COLOR_ONE_BITS,
        color_b: COLOR_ONE_BITS,
        tex_u: texcoords[2 * ti],
        tex_v: texcoords[2 * ti + 1],
    }
}

/// The per-corner vertex sequence of the mesh, before deduplication.
pub open spec fn assembled_mesh(
    positions: Seq<u32>,
    texcoords: Seq<u32>,
    pos_indices: Seq<u32>,
    tex_indices: Seq<u32>,
) -> Seq<Vertex3> {
    Seq::new(
        pos_indices.len(),
        |k: int| assembled_vertex(positions, texcoords, pos_indices[k] as int, tex_indices[k] as int),
    )
}

/// Gathers one vertex per mesh corner from the flat attribute arrays and
/// deduplicates them: the returned vertex list keeps first occurrences
/// in order, and the returned index list names each corner's vertex.
/// Texture coordinates are expected with the vertical axis already
/// flipped, as the renderer stores them.
pub fn build_mesh(
    positions: &Vec<u32>,
    texcoords: &Vec<u32>,
    pos_indices: &Vec<u32>,
    tex_indices: &Vec<u32>,
) -> (r: Result<(Vec<Vertex3>, Vec<u32>), VertexError>)
    requires
        pos_indices@.len() <= u32::MAX,
    ensures
        match r {
            Ok((vertices, indices)) => {
                let mesh = assembled_mesh(positions@, texcoords@, pos_indices@, tex_indices@);
                &&& mesh_well_formed(positions@, texcoords@, pos_indices@, tex_indices@)
                &&& vertices@ == dedup_seq(mesh)
                &&& indices@.len() == mesh.len()
                &&& (forall|k: int| 0 <= k < mesh.len()
                    ==> (#[trigger] indices@[k] as int) < vertices@.len()
                        && vertices@[indices@[k] as int] == mesh[k])
            },
            Err(e) => {
                &&& e == VertexError::MalformedMesh
                &&& !mesh_well_formed(positions@, texcoords@, pos_indices@, tex_indices@)
            },
        },
{
    if pos_indices.len() != tex_indices.len() {
        return Err(VertexError::MalformedMesh);
    }
    let n = pos_indices.len();
    let mut assembled: Vec<Vertex3> = Vec::new();
    for k in 0..n
        invariant
            n == pos_indices@.len(),
            n == tex_indices@.len(),
            n <= u32::MAX,
            assembled@.len() == k,
            forall|kk: int| 0 <= kk < k
                ==> 3 * (#[trigger] pos_indices@[kk] as int) + 2 < positions@.len(),
            forall|kk: int| 0 <= kk < k
                ==> 2 * (#[trigger] tex_indices@[kk] as int) + 1 < texcoords@.len(),
            forall|kk: int| 0 <= kk < k ==> #[trigger] assembled@[kk] == assembled_vertex(
                positions@,
                texcoords@,
                pos_indices@[kk] as int,
                tex_indices@[kk] as int,
            ),
    {
        let pi = pos_indices[k] as u64;
        let ti = tex_indices[k] as u64;
        let pos_base = 3 * pi;
        let tex_base = 2 * ti;
        if pos_base + 2 >= positions.len() as u64 || tex_base + 1 >= texcoords.len() as u64 {
            return Err(VertexError::MalformedMesh);
        }
        let pb = pos_base as usize;
        let tb = tex_base as usize;
        assembled.push(Vertex3 {
            pos_x: positions[pb],
            pos_y: positions[pb + 1],
            pos_z: positions[pb + 2],
            color_r: COLOR_ONE_BITS,
            color_g: COLOR_ONE_BITS,
            color_b: COLOR_ONE_BITS,
            tex_u: texcoords[tb],
            tex_v: texcoords[tb + 1],
        });
    }
    proof {
        assert(assembled@ =~= assembled_mesh(positions@, texcoords@, pos_indices@, tex_indices@));
    }
    Ok(dedup_vertices(&assembled))
}

} // verus!
