//! Construction-time derivation of per-edge parameter records.
//!
//! Edges that are explicit rods come with their own properties. Every other
//! edge gets parameters averaged over its neighboring faces (area-weighted;
//! the averaging itself is scalar work done by the host) and the resulting
//! record is deduplicated against the existing parameter records so that no
//! redundant record is ever stored.
//!
//! Scalar fields throughout carry the solver's raw 32-bit scalar encoding
//! unchanged; this layer stores, compares and deduplicates whole records but
//! never interprets a scalar. The all-zero pattern is the encoding of the
//! zero scalar.

use vstd::prelude::*;

use crate::errors::IntegrityFault;
use crate::errors::SessionError;

verus! {

/// Per-edge physical parameters.
#[derive(Clone, Copy, PartialEq, Eq, Structural, Debug)]
pub struct EdgeParam {
    pub stiffness: u32,
    pub bend: u32,
    pub ghat: u32,
    pub offset: u32,
    pub friction: u32,
}

/// Per-edge properties referencing a parameter record by index.
#[derive(Clone, Copy, PartialEq, Eq, Structural, Debug)]
pub struct EdgeProp {
    pub length: u32,
    pub mass: u32,
    pub fixed: bool,
    pub param_index: u32,
}

/// What the host computed for one non-rod edge: its rest length and the
/// area-weighted averages of the neighboring faces' contact parameters,
/// plus whether any strictly positive area contributed at all.
#[derive(Clone, Copy, PartialEq, Eq, Structural, Debug)]
pub struct DerivedEdge {
    pub length: u32,
    pub ghat: u32,
    pub offset: u32,
    pub friction: u32,
    pub area_positive: bool,
}

/// The parameter record a derived (non-rod) edge gets: zero stretch and
/// bending stiffness, and the averaged contact parameters.
pub open spec fn derived_param(d: DerivedEdge) -> EdgeParam {
    EdgeParam { stiffness: 0, bend: 0, ghat: d.ghat, offset: d.offset, friction: d.friction }
}

/// Every neighbor face index recorded for an edge at or after `rod_count`
/// names an existing face.
pub open spec fn neighbors_valid(neighbors: Seq<Vec<usize>>, rod_count: int, face_count: int) -> bool {
    forall|i: int, k: int|
        rod_count <= i < neighbors.len() && 0 <= k < neighbors[i]@.len()
            ==> (#[trigger] neighbors[i]@[k]) < face_count
}

/// Checks that the neighbor lists of all non-rod edges only name existing
/// faces, so that area-weighted averaging over them is well defined.
pub fn validate_edge_neighbors(
    neighbors: &Vec<Vec<usize>>,
    rod_count: usize,
    face_count: usize,
) -> (r: Result<(), SessionError>)
    requires
        rod_count <= neighbors@.len(),
    ensures
        r is Ok <==> neighbors_valid(neighbors@, rod_count as int, face_count as int),
        r is Err ==> (r->Err_0 matches SessionError::DataIntegrity { fault }
            && fault matches IntegrityFault::InvalidFaceIndex { edge, face }
            && rod_count <= edge < neighbors@.len()
            && face >= face_count
            && (exists|k: int|
                0 <= k < neighbors@[edge as int]@.len()
                    && neighbors@[edge as int]@[k] == face)),
{
    let n = neighbors.len();
    let mut i: usize = rod_count;
    while i < n
        invariant
            rod_count <= i <= n,
            n == neighbors@.len(),
            forall|i2: int, k: int|
                rod_count <= i2 < i && 0 <= k < neighbors@[i2]@.len()
                    ==> (#[trigger] neighbors@[i2]@[k]) < face_count,
        decreases n - i,
    {
        let row_len = neighbors[i].len();
        let mut k: usize = 0;
        while k < row_len
            invariant
                0 <= k <= row_len,
                rod_count <= i < n,
                n == neighbors@.len(),
                row_len == neighbors@[i as int]@.len(),
                forall|k2: int|
                    0 <= k2 < k ==> (#[trigger] neighbors@[i as int]@[k2]) < face_count,
            decreases row_len - k,
        {
            let face = neighbors[i][k];
            if face >= face_count {
                proof {
                    assert(neighbors@[i as int]@[k as int] == face);
                }
                return Err(SessionError::DataIntegrity {
                    fault: IntegrityFault::InvalidFaceIndex { edge: i, face },
                });
            }
            k += 1;
        }
        i += 1;
    }
    Ok(())
}

/// Returns the index of a parameter record equal to `candidate`, reusing the
/// newest existing equal record and appending `candidate` only when no equal
/// record exists: existing records are never changed and no duplicate is
/// ever stored.
pub fn dedup_param_index(params: &mut Vec<EdgeParam>, candidate: EdgeParam) -> (idx: u32)
    requires
        old(params)@.len() < 0xffff_ffff,
    ensures
        idx < final(params)@.len(),
        final(params)@[idx as int] == candidate,
        final(params)@.subrange(0, old(params)@.len() as int) == old(params)@,
        (exists|j: int| 0 <= j < old(params)@.len() && old(params)@[j] == candidate) ==> {
            &&& final(params)@ == old(params)@
            &&& forall|j: int| idx < j < final(params)@.len() ==> final(params)@[j] != candidate
        },
        !(exists|j: int| 0 <= j < old(params)@.len() && old(params)@[j] == candidate) ==> {
            &&& final(params)@ == old(params)@.push(candidate)
            &&& idx as int == old(params)@.len()
        },
{
    let n = params.len();
    let mut i: usize = n;
    while i > 0
        invariant
            i <= n,
            n == params@.len(),
            n < 0xffff_ffff,
            params@ == old(params)@,
            forall|j: int| i <= j < n ==> params@[j] != candidate,
        decreases i,
    {
        i -= 1;
        if params[i] == candidate {
            proof {
                assert(final(params)@.subrange(0, old(params)@.len() as int) =~= old(params)@);
            }
            return i as u32;
        }
    }
    params.push(candidate);
    proof {
        assert(params@.subrange(0, old(params)@.len() as int) =~= old(params)@);
    }
    (params.len() - 1) as u32
}

/// `p` is the parameter record of one of the derived edges.
pub open spec fn is_derived_record(p: EdgeParam, derived: Seq<DerivedEdge>) -> bool {
    exists|k: int| 0 <= k < derived.len() && p == derived_param(derived[k])
}

/// The shape every assembled record list has on success.
pub open spec fn records_assembled(
    rod_props: Seq<EdgeProp>,
    derived: Seq<DerivedEdge>,
    params: Seq<EdgeParam>,
    props: Seq<EdgeProp>,
) -> bool {
    &&& props.len() == rod_props.len() + derived.len()
    &&& forall|i: int| 0 <= i < rod_props.len() ==> props[i] == rod_props[i]
    &&& forall|k: int|
        0 <= k < derived.len() ==> {
            let p = #[trigger] props[rod_props.len() + k];
            &&& p.length == derived[k].length
            &&& p.mass == 0
            &&& !p.fixed
            &&& p.param_index < params.len()
            &&& params[p.param_index as int] == derived_param(derived[k])
        }
}

/// Assembles the full per-edge property list: rod edges keep the provided
/// properties; each derived edge gets zero mass, its computed rest length
/// and a deduplicated parameter record. Fails, leaving the records
/// untouched, on the first derived edge whose neighboring faces contributed
/// no positive area.
pub fn build_edge_records(
    rod_props: &Vec<EdgeProp>,
    derived: &Vec<DerivedEdge>,
    params: &mut Vec<EdgeParam>,
) -> (r: Result<Vec<EdgeProp>, SessionError>)
    requires
        old(params)@.len() + derived@.len() < 0xffff_ffff,
        rod_props@.len() + derived@.len() <= usize::MAX,
    ensures
        r is Ok <==> (forall|k: int| 0 <= k < derived@.len() ==> (#[trigger] derived@[k]).area_positive),
        r is Err ==> {
            &&& final(params)@ == old(params)@
            &&& (r->Err_0 matches SessionError::DataIntegrity { fault }
                && fault matches IntegrityFault::ZeroNeighborArea { edge }
                && rod_props@.len() <= edge < rod_props@.len() + derived@.len()
                && !derived@[edge - rod_props@.len()].area_positive
                && (forall|k: int|
                    0 <= k < edge - rod_props@.len()
                        ==> (#[trigger] derived@[k]).area_positive))
        },
        r is Ok ==> {
            &&& final(params)@.len() >= old(params)@.len()
            &&& final(params)@.subrange(0, old(params)@.len() as int) == old(params)@
            &&& forall|j: int|
                old(params)@.len() <= j < final(params)@.len()
                    ==> forall|i: int| 0 <= i < j ==> final(params)@[i] != #[trigger] final(params)@[j]
            &&& forall|j: int|
                old(params)@.len() <= j < final(params)@.len()
                    ==> is_derived_record(#[trigger] final(params)@[j], derived@)
            &&& records_assembled(rod_props@, derived@, final(params)@, r->Ok_0@)
        },
{
    let dn = derived.len();
    let rn = rod_props.len();

    let mut k: usize = 0;
    while k < dn
        invariant
            k <= dn,
            dn == derived@.len(),
            rn == rod_props@.len(),
            rn + dn <= usize::MAX,
            forall|k2: int| 0 <= k2 < k ==> (#[trigger] derived@[k2]).area_positive,
        decreases dn - k,
    {
        if !derived[k].area_positive {
            return Err(SessionError::DataIntegrity {
                fault: IntegrityFault::ZeroNeighborArea { edge: rn + k },
            });
        }
        k += 1;
    }

    let mut props: Vec<EdgeProp> = Vec::new();
    let mut i: usize = 0;
    while i < rn
        invariant
            i <= rn,
            rn == rod_props@.len(),
            props@.len() == i,
            forall|i2: int| 0 <= i2 < i ==> props@[i2] == rod_props@[i2],
        decreases rn - i,
    {
        props.push(rod_props[i]);
        i += 1;
    }

    let ghost m = old(params)@.len();
    let mut k: usize = 0;
    while k < dn
        invariant
            k <= dn,
            dn == derived@.len(),
            rn == rod_props@.len(),
            rn + dn <= usize::MAX,
            m == old(params)@.len(),
            m + dn < 0xffff_ffff,
            m <= params@.len() <= m + k,
            params@.subrange(0, m as int) == old(params)@,
            forall|j: int|
                m <= j < params@.len()
                    ==> forall|i2: int| 0 <= i2 < j ==> params@[i2] != #[trigger] params@[j],
            forall|j: int|
                m <= j < params@.len() ==> is_derived_record(#[trigger] params@[j], derived@),
            props@.len() == rn + k,
            forall|i2: int| 0 <= i2 < rn ==> props@[i2] == rod_props@[i2],
            forall|k2: int|
                0 <= k2 < k ==> {
                    let p = #[trigger] props@[rn + k2];
                    &&& p.length == derived@[k2].length
                    &&& p.mass == 0
                    &&& !p.fixed
                    &&& p.param_index < params@.len()
                    &&& params@[p.param_index as int] == derived_param(derived@[k2])
                },
        decreases dn - k,
    {
        let d = derived[k];
        let candidate = EdgeParam {
            stiffness: 0u32,
            bend: 0u32,
            ghat: d.ghat,
            offset: d.offset,
            friction: d.friction,
        };
        let ghost params_before = params@;
        let pi = dedup_param_index(params, candidate);
        proof {
            assert(candidate == derived_param(derived@[k as int]));
            assert(is_derived_record(candidate, derived@));
            assert forall|i2: int| 0 <= i2 < params_before.len() implies params@[i2]
                == params_before[i2] by {
                assert(params@.subrange(0, params_before.len() as int)[i2] == params@[i2]);
            }
            assert forall|i2: int| 0 <= i2 < m implies params@.subrange(0, m as int)[i2]
                == old(params)@[i2] by {
                assert(params_before.subrange(0, m as int)[i2] == params_before[i2]);
            }
            assert(params@.subrange(0, m as int) =~= old(params)@);
        }
        props.push(EdgeProp { length: d.length, mass: 0u32, fixed: false, param_index: pi });
        k += 1;
    }
    Ok(props)
}

} // verus!
