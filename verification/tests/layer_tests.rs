use remote_layer::error::LayerError;
use remote_layer::filename::{DeltaFileName, ImageFileName};
use remote_layer::ids::{Key, KeyRange, Lsn, LsnRange, TenantId, TimelineId};
use remote_layer::remote_layer::{LayerFileMetadata, RemoteLayer};
use remote_layer::value::{ValueReconstructState, Value, LayerRecord};

fn image_layer() -> RemoteLayer {
    let meta = LayerFileMetadata { file_size: Some(4096) };
    let fname = ImageFileName {
        key_range: KeyRange { start: Key(0x11), end: Key(0x22) },
        lsn: Lsn(500),
    };
    RemoteLayer::new_img(TenantId(1), TimelineId(2), &fname, &meta)
}

fn delta_layer() -> RemoteLayer {
    let meta = LayerFileMetadata { file_size: None };
    let fname = DeltaFileName {
        key_range: KeyRange { start: Key(0x11), end: Key(0x22) },
        lsn_range: LsnRange { start: Lsn(100), end: Lsn(150) },
    };
    RemoteLayer::new_delta(TenantId(1), TimelineId(2), &fname, &meta)
}

#[test]
fn image_reconstruct_always_needs_download() {
    let layer = image_layer();
    let mut state = ValueReconstructState { records: vec![], img: None };
    let r = layer.get_value_reconstruct_data(
        Key(0x11),
        LsnRange { start: Lsn(0), end: Lsn(500) },
        &mut state,
    );
    match r {
        Err(LayerError::NeedsDownload(name)) => {
            assert_eq!(name, "0000000000000011-0000000000000022__00000000000001f4");
        }
        other => panic!("expected NeedsDownload, got {:?}", other),
    }
    assert!(state.records.is_empty());
    assert!(state.img.is_none());
}

#[test]
fn delta_reconstruct_always_needs_download() {
    let layer = delta_layer();
    let mut state = ValueReconstructState { records: vec![], img: None };
    // Arbitrary key and range: the placeholder refuses them all alike.
    let r = layer.get_value_reconstruct_data(
        Key(0xFFFF),
        LsnRange { start: Lsn(140), end: Lsn(141) },
        &mut state,
    );
    match r {
        Err(LayerError::NeedsDownload(name)) => {
            assert_eq!(
                name,
                "0000000000000011-0000000000000022__0000000000000064-0000000000000096"
            );
        }
        other => panic!("expected NeedsDownload, got {:?}", other),
    }
}

#[test]
fn remote_layer_is_not_iterable() {
    let layer = image_layer();
    match layer.iter() {
        Err(LayerError::NotIterable) => {}
        other => panic!("expected NotIterable, got {:?}", other),
    }
    match layer.key_iter() {
        Err(LayerError::NotIterable) => {}
        other => panic!("expected NotIterable, got {:?}", other),
    }
}

#[test]
fn is_incremental_iff_delta() {
    assert!(!image_layer().is_incremental());
    assert!(delta_layer().is_incremental());
}

#[test]
fn remote_layer_has_no_local_path() {
    assert!(image_layer().local_path().is_none());
    assert!(delta_layer().local_path().is_none());
}

#[test]
fn remote_delete_succeeds_without_side_effect() {
    let layer = image_layer();
    assert!(layer.delete().is_ok());
    // The placeholder is untouched and still refuses reads afterwards.
    let mut state = ValueReconstructState { records: vec![], img: None };
    let r = layer.get_value_reconstruct_data(
        Key(0x11),
        LsnRange { start: Lsn(0), end: Lsn(500) },
        &mut state,
    );
    assert!(matches!(r, Err(LayerError::NeedsDownload(_))));
}

#[test]
fn accessors_report_identity() {
    let layer = image_layer();
    assert_eq!(layer.get_tenant_id(), TenantId(1));
    assert_eq!(layer.get_timeline_id(), TimelineId(2));
    assert_eq!(layer.get_key_range(), KeyRange { start: Key(0x11), end: Key(0x22) });
    // An image layer's LSN range is the single point of its snapshot.
    assert_eq!(layer.get_lsn_range(), LsnRange { start: Lsn(500), end: Lsn(501) });
    assert!(layer.is_remote_layer());
    assert!(layer.downcast_remote_layer().is_some());
}

#[test]
fn dump_renders_identity() {
    let layer = image_layer();
    let text = layer.dump(true);
    assert_eq!(
        text,
        "----- remote layer for ten 00000000000000000000000000000001 \
         tli 00000000000000000000000000000002 \
         keys 0000000000000011-0000000000000022 \
         lsn 00000000000001f4-00000000000001f5 ----"
    );
}

#[test]
fn create_downloaded_layer_keeps_identity() {
    let layer = delta_layer();
    let entries = vec![LayerRecord {
        key: Key(0x15),
        lsn: Lsn(120),
        value: Value { bytes: vec![1, 2, 3] },
    }];
    let mat = layer.create_downloaded_layer("layers/l0".to_string(), entries);
    assert_eq!(mat.identity(), layer.identity());
    assert!(mat.is_incremental());
    assert_eq!(mat.local_path(), Some("layers/l0".to_string()));
    assert_eq!(mat.short_id(), layer.short_id());
}
