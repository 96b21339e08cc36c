use ppf_session::edge_params::build_edge_records;
use ppf_session::edge_params::dedup_param_index;
use ppf_session::edge_params::validate_edge_neighbors;
use ppf_session::edge_params::DerivedEdge;
use ppf_session::edge_params::EdgeParam;
use ppf_session::edge_params::EdgeProp;
use ppf_session::errors::IntegrityFault;
use ppf_session::errors::SessionError;

fn param(ghat: f32, offset: f32, friction: f32) -> EdgeParam {
    EdgeParam {
        stiffness: 0,
        bend: 0,
        ghat: ghat.to_bits(),
        offset: offset.to_bits(),
        friction: friction.to_bits(),
    }
}

fn derived(ghat: f32, offset: f32, friction: f32, length: f32) -> DerivedEdge {
    DerivedEdge {
        length: length.to_bits(),
        ghat: ghat.to_bits(),
        offset: offset.to_bits(),
        friction: friction.to_bits(),
        area_positive: true,
    }
}

#[test]
fn dedup_reuses_the_newest_equal_record() {
    let a = param(0.1, 0.0, 0.4);
    let b = param(0.2, 0.0, 0.4);
    let mut params = vec![a, b, a];
    let idx = dedup_param_index(&mut params, a);
    assert_eq!(idx, 2);
    assert_eq!(params.len(), 3);
}

#[test]
fn dedup_appends_an_unseen_record_once() {
    let a = param(0.1, 0.0, 0.4);
    let mut params = vec![a];
    let c = param(0.3, 0.01, 0.2);
    let idx = dedup_param_index(&mut params, c);
    assert_eq!(idx, 1);
    assert_eq!(params.len(), 2);
    assert_eq!(params[1], c);
    let again = dedup_param_index(&mut params, c);
    assert_eq!(again, 1);
    assert_eq!(params.len(), 2);
}

#[test]
fn neighbor_validation_accepts_in_range_faces() {
    let neighbors = vec![vec![9usize], vec![0, 1], vec![2, 3, 4]];
    assert!(validate_edge_neighbors(&neighbors, 1, 5).is_ok());
}

#[test]
fn neighbor_validation_names_the_bad_face() {
    let neighbors = vec![vec![0usize], vec![1, 7, 2]];
    match validate_edge_neighbors(&neighbors, 0, 5) {
        Err(SessionError::DataIntegrity {
            fault: IntegrityFault::InvalidFaceIndex { edge, face },
        }) => {
            assert_eq!(edge, 1);
            assert_eq!(face, 7);
        }
        _ => panic!("expected the invalid-face fault"),
    }
}

#[test]
fn neighbor_validation_skips_rod_edges() {
    // The rod prefix may reference anything; only non-rod edges are checked.
    let neighbors = vec![vec![99usize], vec![1]];
    assert!(validate_edge_neighbors(&neighbors, 1, 2).is_ok());
}

#[test]
fn records_keep_rod_props_and_build_derived_ones() {
    let rod = EdgeProp { length: 1.5f32.to_bits(), mass: 0.2f32.to_bits(), fixed: true, param_index: 0 };
    let rod_props = vec![rod];
    let d0 = derived(0.1, 0.0, 0.4, 2.0);
    let d1 = derived(0.1, 0.0, 0.4, 3.0);
    let d2 = derived(0.5, 0.0, 0.4, 4.0);
    let derived_edges = vec![d0, d1, d2];
    let mut params = vec![param(9.0, 9.0, 9.0)];
    let props = build_edge_records(&rod_props, &derived_edges, &mut params).unwrap();

    assert_eq!(props.len(), 4);
    assert_eq!(props[0], rod);
    for (k, d) in [d0, d1, d2].iter().enumerate() {
        let p = props[1 + k];
        assert_eq!(p.length, d.length);
        assert_eq!(p.mass, 0);
        assert!(!p.fixed);
        let stored = params[p.param_index as usize];
        assert_eq!(stored, param(f32::from_bits(d.ghat), f32::from_bits(d.offset), f32::from_bits(d.friction)));
    }
    // The two equal derived records share one stored parameter record.
    assert_eq!(props[1].param_index, props[2].param_index);
    assert_ne!(props[1].param_index, props[3].param_index);
    assert_eq!(params.len(), 3);
}

#[test]
fn zero_neighbor_area_names_the_edge() {
    let d0 = derived(0.1, 0.0, 0.4, 2.0);
    let mut d1 = derived(0.2, 0.0, 0.4, 3.0);
    d1.area_positive = false;
    let rod_props: Vec<EdgeProp> = Vec::new();
    let mut params: Vec<EdgeParam> = Vec::new();
    match build_edge_records(&rod_props, &vec![d0, d1], &mut params) {
        Err(SessionError::DataIntegrity { fault: IntegrityFault::ZeroNeighborArea { edge } }) => {
            assert_eq!(edge, 1);
        }
        _ => panic!("expected the zero-area fault"),
    }
    assert!(params.is_empty());
}
