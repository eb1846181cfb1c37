use remote_layer::error::LayerError;
use remote_layer::filename::ImageFileName;
use remote_layer::ids::{Key, KeyRange, Lsn, TenantId, TimelineId};
use remote_layer::remote_layer::{
    DownloadOutcome, DownloadToken, LayerFileMetadata, RemoteLayer,
};

fn placeholder() -> RemoteLayer {
    let meta = LayerFileMetadata { file_size: Some(1) };
    let fname = ImageFileName {
        key_range: KeyRange { start: Key(1), end: Key(2) },
        lsn: Lsn(10),
    };
    RemoteLayer::new_img(TenantId(3), TimelineId(4), &fname, &meta)
}

#[test]
fn first_request_owns_later_requests_wait() {
    let mut layer = placeholder();
    let t1 = layer.begin_download();
    assert!(matches!(t1, DownloadToken::Owner));
    let t2 = layer.begin_download();
    assert!(matches!(t2, DownloadToken::Waiter(_)));
    let t3 = layer.begin_download();
    assert!(matches!(t3, DownloadToken::Waiter(_)));
}

#[test]
fn waiters_observe_success() {
    let mut layer = placeholder();
    let t1 = layer.begin_download();
    assert!(matches!(t1, DownloadToken::Owner));
    let t2 = layer.begin_download();
    let t3 = layer.begin_download();
    let was_in_flight = layer.finish_download(DownloadOutcome::Success);
    assert!(was_in_flight);
    for t in [t2, t3] {
        match t {
            DownloadToken::Waiter(rx) => {
                assert_eq!(*rx.borrow(), Some(DownloadOutcome::Success));
            }
            DownloadToken::Owner => panic!("a second owner was granted"),
        }
    }
}

#[test]
fn waiters_observe_failure_and_retry_is_accepted() {
    let mut layer = placeholder();
    let t1 = layer.begin_download();
    assert!(matches!(t1, DownloadToken::Owner));
    let t2 = layer.begin_download();
    let was_in_flight = layer.finish_download(DownloadOutcome::Failed("object not found".to_string()));
    assert!(was_in_flight);
    match t2 {
        DownloadToken::Waiter(rx) => {
            let seen = rx.borrow().clone();
            assert_eq!(seen, Some(DownloadOutcome::Failed("object not found".to_string())));
            let as_error = seen.unwrap().to_result();
            match as_error {
                Err(LayerError::DownloadFailed(cause)) => assert_eq!(cause, "object not found"),
                other => panic!("expected DownloadFailed, got {:?}", other),
            }
        }
        DownloadToken::Owner => panic!("a second owner was granted"),
    }
    // The slot returned to idle: a new request is accepted as owner.
    let t4 = layer.begin_download();
    assert!(matches!(t4, DownloadToken::Owner));
}

#[test]
fn successful_outcome_maps_to_ok() {
    assert!(DownloadOutcome::Success.to_result().is_ok());
}

#[test]
fn finish_without_episode_reports_none_in_flight() {
    let mut layer = placeholder();
    let was_in_flight = layer.finish_download(DownloadOutcome::Success);
    assert!(!was_in_flight);
    // And a request after that is still granted ownership.
    let t = layer.begin_download();
    assert!(matches!(t, DownloadToken::Owner));
}

#[test]
fn late_waiter_subscribes_to_running_episode() {
    let mut layer = placeholder();
    let _owner = layer.begin_download();
    // A waiter that subscribes before the outcome still observes it.
    let t = layer.begin_download();
    let rx = match t {
        DownloadToken::Waiter(rx) => rx,
        DownloadToken::Owner => panic!("a second owner was granted"),
    };
    assert_eq!(*rx.borrow(), None);
    layer.finish_download(DownloadOutcome::Success);
    assert_eq!(*rx.borrow(), Some(DownloadOutcome::Success));
}
