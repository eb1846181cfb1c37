use remote_layer::filename::DeltaFileName;
use remote_layer::ids::{Key, KeyRange, Lsn, LsnRange, TenantId, TimelineId};
use remote_layer::materialized::MaterializedLayer;
use remote_layer::remote_layer::{LayerFileMetadata, RemoteLayer};
use remote_layer::value::{LayerRecord, Value, ValueReconstructResult, ValueReconstructState};

fn delta_materialized() -> MaterializedLayer {
    let meta = LayerFileMetadata { file_size: Some(64) };
    let fname = DeltaFileName {
        key_range: KeyRange { start: Key(10), end: Key(20) },
        lsn_range: LsnRange { start: Lsn(100), end: Lsn(200) },
    };
    let placeholder = RemoteLayer::new_delta(TenantId(5), TimelineId(6), &fname, &meta);
    let entries = vec![
        LayerRecord { key: Key(11), lsn: Lsn(110), value: Value { bytes: vec![1] } },
        LayerRecord { key: Key(12), lsn: Lsn(120), value: Value { bytes: vec![2, 2] } },
        LayerRecord { key: Key(12), lsn: Lsn(130), value: Value { bytes: vec![3, 3, 3] } },
    ];
    placeholder.create_downloaded_layer("layers/d0".to_string(), entries)
}

#[test]
fn delta_reconstruct_contributes_record_and_continues() {
    let layer = delta_materialized();
    let mut state = ValueReconstructState { records: vec![], img: None };
    let r = layer.get_value_reconstruct_data(
        Key(12),
        LsnRange { start: Lsn(100), end: Lsn(125) },
        &mut state,
    );
    // A delta layer asks for an earlier layer after contributing.
    assert_eq!(r, Ok(ValueReconstructResult::Continue));
    assert_eq!(state.records.len(), 1);
    assert_eq!(state.records[0].0, Lsn(120));
    assert_eq!(state.records[0].1.bytes, vec![2, 2]);
    assert!(state.img.is_none());
}

#[test]
fn reconstruct_of_absent_key_reports_missing() {
    let layer = delta_materialized();
    let mut state = ValueReconstructState { records: vec![], img: None };
    let r = layer.get_value_reconstruct_data(
        Key(19),
        LsnRange { start: Lsn(100), end: Lsn(200) },
        &mut state,
    );
    assert_eq!(r, Ok(ValueReconstructResult::Missing));
    assert!(state.records.is_empty());
    assert!(state.img.is_none());
}

#[test]
fn reconstruct_outside_lsn_range_reports_missing() {
    let layer = delta_materialized();
    let mut state = ValueReconstructState { records: vec![], img: None };
    let r = layer.get_value_reconstruct_data(
        Key(12),
        LsnRange { start: Lsn(140), end: Lsn(200) },
        &mut state,
    );
    assert_eq!(r, Ok(ValueReconstructResult::Missing));
}

#[test]
fn materialized_layer_iterates() {
    let layer = delta_materialized();
    let entries = layer.iter().expect("resident bytes iterate");
    assert_eq!(entries.len(), 3);
    assert_eq!(entries[2].key, Key(12));
    assert_eq!(entries[2].lsn, Lsn(130));
    assert_eq!(entries[2].value.bytes, vec![3, 3, 3]);

    let keys = layer.key_iter().expect("resident bytes iterate");
    assert_eq!(keys.len(), 3);
    assert_eq!(keys[0], (Key(11), Lsn(110), 1));
    assert_eq!(keys[1], (Key(12), Lsn(120), 2));
    assert_eq!(keys[2], (Key(12), Lsn(130), 3));
}

#[test]
fn materialized_delete_reports_success() {
    let layer = delta_materialized();
    assert!(layer.delete().is_ok());
}

#[test]
fn materialized_dump_renders_identity() {
    let layer = delta_materialized();
    let text = layer.dump(false);
    assert_eq!(
        text,
        "----- materialized layer for ten 00000000000000000000000000000005 \
         tli 00000000000000000000000000000006 \
         keys 000000000000000a-0000000000000014 \
         lsn 0000000000000064-00000000000000c8 ----"
    );
}
