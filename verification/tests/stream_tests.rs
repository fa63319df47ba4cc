use fetchfile::check_status;
use fetchfile::progress::concat_chunks;
use fetchfile::progress::mode_for;
use fetchfile::progress::ProgressMode;
use fetchfile::progress::StreamState;
use fetchfile::DownloadError;

#[test]
fn status_2xx_is_success() {
    assert_eq!(check_status(200), Ok(()));
    assert_eq!(check_status(204), Ok(()));
    assert_eq!(check_status(299), Ok(()));
}

#[test]
fn status_404_aborts_with_that_code() {
    assert_eq!(check_status(404), Err(DownloadError::HttpStatus(404)));
}

#[test]
fn status_outside_2xx_is_an_error() {
    assert_eq!(check_status(199), Err(DownloadError::HttpStatus(199)));
    assert_eq!(check_status(301), Err(DownloadError::HttpStatus(301)));
    assert_eq!(check_status(500), Err(DownloadError::HttpStatus(500)));
}

#[test]
fn declared_length_selects_the_bar() {
    assert_eq!(mode_for(Some(7)), ProgressMode::Determinate { total: 7 });
    assert_eq!(mode_for(None), ProgressMode::Indeterminate);
}

#[test]
fn chunks_concatenate_in_order() {
    let chunks: Vec<Vec<u8>> = vec![b"hel".to_vec(), b"lo ".to_vec(), b"world".to_vec()];
    assert_eq!(concat_chunks(&chunks), b"hello world".to_vec());
}

#[test]
fn empty_chunks_add_nothing() {
    let chunks: Vec<Vec<u8>> = vec![Vec::new(), b"ab".to_vec(), Vec::new(), b"c".to_vec()];
    assert_eq!(concat_chunks(&chunks), b"abc".to_vec());
}

#[test]
fn no_chunks_concatenate_to_nothing() {
    let chunks: Vec<Vec<u8>> = Vec::new();
    assert_eq!(concat_chunks(&chunks), Vec::<u8>::new());
}

#[test]
fn rechunking_does_not_change_the_bytes() {
    let coarse: Vec<Vec<u8>> = vec![b"abcdef".to_vec()];
    let fine: Vec<Vec<u8>> = vec![
        b"a".to_vec(),
        b"bc".to_vec(),
        b"".to_vec(),
        b"def".to_vec(),
    ];
    assert_eq!(concat_chunks(&coarse), concat_chunks(&fine));
}

#[test]
fn recorded_bytes_count_every_chunk() {
    let mut state = StreamState::new(Some(10));
    state.record_chunk(b"hell");
    assert_eq!(state.received, 4);
    state.record_chunk(b"o worl");
    assert_eq!(state.received, 10);
}

#[test]
fn determinate_bar_reaches_hundred_on_last_chunk() {
    let mut state = StreamState::new(Some(10));
    state.record_chunk(b"hello");
    assert_eq!(state.percent(), Some(50));
    state.record_chunk(b"worl");
    assert_eq!(state.percent(), Some(90));
    state.record_chunk(b"d");
    assert_eq!(state.percent(), Some(100));
}

#[test]
fn indeterminate_mode_shows_no_percent() {
    let mut state = StreamState::new(None);
    state.record_chunk(b"data");
    assert_eq!(state.percent(), None);
}

#[test]
fn zero_total_shows_no_percent() {
    let state = StreamState::new(Some(0));
    assert_eq!(state.percent(), None);
}

#[test]
fn overrun_total_shows_no_percent() {
    let mut state = StreamState::new(Some(2));
    state.record_chunk(b"abc");
    assert_eq!(state.percent(), None);
}
