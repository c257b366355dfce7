use primrose_rust::blending::{
    ozz_blendingjob_set_layer, ozz_blendingjob_set_layer_count, soa_transform_buffer_len, BufferError,
};

#[test]
fn set_layer_replaces_one_layer() {
    let mut layers = vec!["a", "b", "c"];
    ozz_blendingjob_set_layer(&mut layers, 1, "x");
    assert_eq!(layers, vec!["a", "x", "c"]);
}

#[test]
fn set_layer_first_and_last() {
    let mut layers = vec![1, 2, 3];
    ozz_blendingjob_set_layer(&mut layers, 0, 10);
    ozz_blendingjob_set_layer(&mut layers, 2, 30);
    assert_eq!(layers, vec![10, 2, 30]);
}

#[test]
fn set_layer_count_keeps_first_layers() {
    let mut layers = vec![1, 2, 3, 4];
    ozz_blendingjob_set_layer_count(&mut layers, 2);
    assert_eq!(layers, vec![1, 2]);
}

#[test]
fn set_layer_count_to_current_length_keeps_list() {
    let mut layers = vec![1, 2, 3];
    ozz_blendingjob_set_layer_count(&mut layers, 3);
    assert_eq!(layers, vec![1, 2, 3]);
}

#[test]
fn set_layer_count_to_zero_empties_list() {
    let mut layers = vec![1, 2, 3];
    ozz_blendingjob_set_layer_count(&mut layers, 0);
    assert!(layers.is_empty());
}

#[test]
fn set_layer_after_count_reads_back() {
    let mut layers = vec![1, 2, 3, 4, 5];
    ozz_blendingjob_set_layer_count(&mut layers, 3);
    ozz_blendingjob_set_layer(&mut layers, 2, 42);
    assert_eq!(layers, vec![1, 2, 42]);
}

#[test]
fn buffer_without_memory_is_invalid_index() {
    assert_eq!(soa_transform_buffer_len(false, 4), Err(BufferError::InvalidIndex));
    assert_eq!(soa_transform_buffer_len(false, -1), Err(BufferError::InvalidIndex));
}

#[test]
fn buffer_with_memory_exposes_count() {
    assert_eq!(soa_transform_buffer_len(true, 5), Ok(5));
    assert_eq!(soa_transform_buffer_len(true, 0), Ok(0));
}

#[test]
fn set_layer_count_leaves_cut_layers_undropped() {
    let shared = std::rc::Rc::new(7);
    let mut layers = vec![shared.clone(), shared.clone(), shared.clone()];
    ozz_blendingjob_set_layer_count(&mut layers, 1);
    assert_eq!(layers.len(), 1);
    // The two layers cut off were not dropped: their references remain counted.
    assert_eq!(std::rc::Rc::strong_count(&shared), 4);
}

#[test]
fn set_layer_count_to_zero_leaves_all_layers_undropped() {
    let shared = std::rc::Rc::new(3);
    let mut layers = vec![shared.clone(), shared.clone()];
    ozz_blendingjob_set_layer_count(&mut layers, 0);
    assert!(layers.is_empty());
    assert_eq!(std::rc::Rc::strong_count(&shared), 3);
}
