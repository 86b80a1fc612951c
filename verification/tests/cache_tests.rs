use wii_organizer::covers::CoverAsset;
use wii_organizer::covers::WiiResources;
use wii_organizer::CacheError;

fn resources() -> WiiResources {
    WiiResources::new(b"/home/alice/.cache/wiiorg".to_vec(), vec![0xFF, 0xD8, 0xAA, 0x01, 0x02])
}

#[test]
fn default_on_missing_cover() {
    // Identifier "ABCD01" with no file at the expected path: the lookup
    // yields exactly the embedded default bytes, and nothing fails.
    let w = resources();
    let path = w.cover_path(b"ABCD01");
    assert_eq!(
        path.unwrap(),
        b"/home/alice/.cache/wiiorg/wii/disc/US/ABCD01.png".to_vec()
    );
    let asset = w.get_cover(None);
    assert!(matches!(asset, CoverAsset::Embedded(_)));
    assert_eq!(asset.into_bytes(), vec![0xFF, 0xD8, 0xAA, 0x01, 0x02]);
}

#[test]
fn cached_bytes_returned_exactly() {
    let w = resources();
    let file_bytes = vec![1u8, 2, 3, 4, 5, 6, 7];
    let asset = w.get_cover(Some(file_bytes.clone()));
    assert!(matches!(asset, CoverAsset::FromCache(_)));
    assert_eq!(asset.into_bytes(), file_bytes);
}

#[test]
fn unclean_id_falls_back() {
    let w = resources();
    assert!(w.cover_path(b"../ABCD01").is_none());
    assert!(w.cover_path(b"a/b").is_none());
    assert!(w.cover_path(b"..").is_none());
    assert!(w.cover_path(b"").is_none());
    // The lookup then proceeds with no read result and still succeeds.
    let asset = w.get_cover(None);
    assert_eq!(asset.into_bytes(), vec![0xFF, 0xD8, 0xAA, 0x01, 0x02]);
}

#[test]
fn failed_status_reports_remote_failure() {
    let mut w = resources();
    let r = w.begin_fetch(404, Some(1000), "discs");
    assert_eq!(r.unwrap_err(), CacheError::RemoteFailure);
    assert_eq!(w.downloads.len(), 0);
}

#[test]
fn no_content_length_skips_progress() {
    let mut w = resources();
    let st = w.begin_fetch(200, None, "discs").unwrap();
    assert!(st.progress_index.is_none());
    assert_eq!(w.downloads.len(), 0);
    assert_eq!(st.dest, b"/home/alice/.cache/wiiorg/discs.zip".to_vec());
    // Chunks still stream to the file; the registry stays empty.
    w.fetch_chunk(&st, 4096);
    assert_eq!(w.downloads.len(), 0);
}

#[test]
fn progress_quarters() {
    // A 1,000-byte resource advertised with its full length, streamed in
    // four 250-byte chunks: the fraction passes exactly through
    // 0.25, 0.50, 0.75, 1.0 in that order.
    let mut w = resources();
    let st = w.begin_fetch(200, Some(1000), "discs").unwrap();
    let idx = st.progress_index.unwrap();
    assert_eq!(idx, 0);
    let (num0, den0) = w.downloads.fraction(idx);
    assert_eq!((num0, den0), (0, 1000));
    let mut seen: Vec<f64> = Vec::new();
    for _ in 0..4 {
        w.fetch_chunk(&st, 250);
        let (num, den) = w.downloads.fraction(idx);
        seen.push(num as f64 / den as f64);
    }
    assert_eq!(seen, vec![0.25, 0.50, 0.75, 1.0]);
    for pair in seen.windows(2) {
        assert!(pair[0] < pair[1]);
    }
    // The terminal fraction is exactly 1.0 for a fully written fetch.
    let (num, den) = w.downloads.fraction(idx);
    assert_eq!(num, den);
    assert_eq!(num as f64 / den as f64, 1.0);
}

#[test]
fn independent_progress_entries() {
    // Two fetches with distinct labels, chunks interleaved: two entries in
    // append order, each advancing independently, none lost.
    let mut w = resources();
    let st_a = w.begin_fetch(200, Some(100), "first").unwrap();
    let st_b = w.begin_fetch(200, Some(200), "second").unwrap();
    assert_eq!(st_a.progress_index.unwrap(), 0);
    assert_eq!(st_b.progress_index.unwrap(), 1);
    assert_eq!(w.downloads.len(), 2);
    assert_eq!(w.downloads.name(0), "first".to_string());
    assert_eq!(w.downloads.name(1), "second".to_string());
    w.fetch_chunk(&st_a, 50);
    assert_eq!(w.downloads.fraction(0), (50, 100));
    assert_eq!(w.downloads.fraction(1), (0, 200));
    w.fetch_chunk(&st_b, 50);
    assert_eq!(w.downloads.fraction(0), (50, 100));
    assert_eq!(w.downloads.fraction(1), (50, 200));
    w.fetch_chunk(&st_a, 50);
    w.fetch_chunk(&st_b, 150);
    assert_eq!(w.downloads.fraction(0), (100, 100));
    assert_eq!(w.downloads.fraction(1), (200, 200));
    assert_eq!(w.downloads.name(0), "first".to_string());
    assert_eq!(w.downloads.name(1), "second".to_string());
}

#[test]
fn overlong_body_clamps_fraction() {
    // The server sends more bytes than it declared: the fraction clamps at
    // one and never regresses.
    let mut w = resources();
    let st = w.begin_fetch(200, Some(100), "discs").unwrap();
    let idx = st.progress_index.unwrap();
    w.fetch_chunk(&st, 100);
    assert_eq!(w.downloads.fraction(idx), (100, 100));
    w.fetch_chunk(&st, 50);
    assert_eq!(w.downloads.fraction(idx), (100, 100));
}

#[test]
fn archive_dest_under_cache_root() {
    let mut w = resources();
    let st = w.begin_fetch(204, Some(1000), "discs").unwrap();
    assert_eq!(st.dest, b"/home/alice/.cache/wiiorg/discs.zip".to_vec());
}
