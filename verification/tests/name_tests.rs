use remote_layer::error::LayerError;
use remote_layer::filename::{DeltaFileName, ImageFileName, LayerFileName};
use remote_layer::ids::{Key, KeyRange, Lsn, LsnRange};

#[test]
fn image_name_exact() {
    let f = ImageFileName {
        key_range: KeyRange { start: Key(1), end: Key(2) },
        lsn: Lsn(100),
    };
    assert_eq!(f.file_name(), "0000000000000001-0000000000000002__0000000000000064");
}

#[test]
fn delta_name_exact() {
    let f = DeltaFileName {
        key_range: KeyRange { start: Key(1), end: Key(2) },
        lsn_range: LsnRange { start: Lsn(100), end: Lsn(150) },
    };
    assert_eq!(
        f.file_name(),
        "0000000000000001-0000000000000002__0000000000000064-0000000000000096"
    );
}

#[test]
fn names_are_stable() {
    let f = ImageFileName {
        key_range: KeyRange { start: Key(0xABCD), end: Key(0xEF01) },
        lsn: Lsn(0xDEADBEEF),
    };
    assert_eq!(f.file_name(), f.file_name());
    assert_eq!(
        LayerFileName::Image(f).file_name(),
        f.file_name(),
    );
}

#[test]
fn image_and_delta_over_same_keys_have_distinct_names() {
    // An image layer at LSN 100 and a delta layer spanning [100, 150)
    // over the same key range must not collide.
    let img = ImageFileName {
        key_range: KeyRange { start: Key(1), end: Key(2) },
        lsn: Lsn(100),
    };
    let del = DeltaFileName {
        key_range: KeyRange { start: Key(1), end: Key(2) },
        lsn_range: LsnRange { start: Lsn(100), end: Lsn(150) },
    };
    assert_ne!(img.file_name(), del.file_name());
}

#[test]
fn distinct_ranges_have_distinct_names() {
    let a = ImageFileName {
        key_range: KeyRange { start: Key(1), end: Key(2) },
        lsn: Lsn(100),
    };
    let b = ImageFileName {
        key_range: KeyRange { start: Key(1), end: Key(3) },
        lsn: Lsn(100),
    };
    let c = ImageFileName {
        key_range: KeyRange { start: Key(1), end: Key(2) },
        lsn: Lsn(101),
    };
    assert_ne!(a.file_name(), b.file_name());
    assert_ne!(a.file_name(), c.file_name());
    assert_ne!(b.file_name(), c.file_name());
}

#[test]
fn error_messages_render() {
    let needs = LayerError::NeedsDownload("a-b__c".to_string());
    assert_eq!(needs.describe(), "layer a-b__c needs to be downloaded");
    assert_eq!(
        LayerError::NotIterable.describe(),
        "cannot iterate a remote layer"
    );
    let failed = LayerError::DownloadFailed("timed out".to_string());
    assert_eq!(failed.describe(), "download of layer failed: timed out");
}
