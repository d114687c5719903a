use music_worker::downloader::{download_args, metadata_args, search_term, song_info, YtDlpInfo};

fn empty_info() -> YtDlpInfo {
    YtDlpInfo {
        title: None,
        uploader: None,
        channel: None,
        duration: None,
        thumbnail: None,
        webpage_url: None,
    }
}

#[test]
fn search_is_first_youtube_hit() {
    assert_eq!(search_term("never gonna"), "ytsearch1:never gonna");
}

#[test]
fn missing_metadata_falls_back() {
    let song = song_info("my query", "ytsearch1:my query", empty_info());
    assert_eq!(song.title, "my query");
    assert_eq!(song.artist, "Unknown Artist");
    assert_eq!(song.duration, 0);
    assert_eq!(song.thumbnail, None);
    assert_eq!(song.url, "ytsearch1:my query");
}

#[test]
fn channel_stands_in_for_uploader() {
    let mut info = empty_info();
    info.channel = Some("Chan".to_string());
    assert_eq!(song_info("q", "s", info).artist, "Chan");
    let mut info = empty_info();
    info.channel = Some("Chan".to_string());
    info.uploader = Some("Up".to_string());
    assert_eq!(song_info("q", "s", info).artist, "Up");
}

#[test]
fn full_metadata_is_kept() {
    let info = YtDlpInfo {
        title: Some("Title".to_string()),
        uploader: Some("Artist".to_string()),
        channel: None,
        duration: Some(212),
        thumbnail: Some("https://i.ytimg.com/x.jpg".to_string()),
        webpage_url: Some("https://youtube.com/watch?v=x".to_string()),
    };
    let song = song_info("q", "ytsearch1:q", info);
    assert_eq!(song.title, "Title");
    assert_eq!(song.artist, "Artist");
    assert_eq!(song.duration, 212);
    assert_eq!(song.thumbnail.as_deref(), Some("https://i.ytimg.com/x.jpg"));
    assert_eq!(song.url, "https://youtube.com/watch?v=x");
}

#[test]
fn metadata_run_arguments() {
    assert_eq!(
        metadata_args("ytsearch1:q"),
        vec!["--no-playlist", "--dump-single-json", "--skip-download", "ytsearch1:q"]
    );
}

#[test]
fn download_run_arguments() {
    assert_eq!(
        download_args("/tmp/out.mp3", "ytsearch1:q"),
        vec![
            "--no-playlist",
            "--extract-audio",
            "--audio-format",
            "mp3",
            "--audio-quality",
            "192K",
            "--output",
            "/tmp/out.mp3",
            "ytsearch1:q",
        ]
    );
}
