use offstream::database::{Database, MissingFilmDownload};
use offstream::download::{
    download_filename, download_output_path, prepare_download, record_download_result,
    record_download_started, u64_to_string, vimeo_url, youtube_dl_args,
};
use offstream::error::{Error, ErrorKind};
use offstream::record::GetFilmResponseStatus;
use offstream::xsrf::extract_xsrf_token;

fn missing(id: u64, title: &str, director: &str, year: u64) -> MissingFilmDownload {
    MissingFilmDownload {
        id,
        title: title.to_string(),
        original_title: None,
        director: director.to_string(),
        production_year: year,
    }
}

#[test]
fn numbers_render_in_decimal() {
    assert_eq!(u64_to_string(0), "0");
    assert_eq!(u64_to_string(7), "7");
    assert_eq!(u64_to_string(10), "10");
    assert_eq!(u64_to_string(2020), "2020");
    assert_eq!(u64_to_string(1234567890), "1234567890");
    assert_eq!(u64_to_string(u64::MAX), "18446744073709551615");
}

#[test]
fn output_path_is_derived_from_the_entry() {
    assert_eq!(download_filename(&"Y".to_string(), &"X".to_string(), 2020), "Y - X (2020).mp4");
    assert_eq!(
        download_output_path(&"Y".to_string(), &"X".to_string(), 2020),
        "films/2020/Y - X (2020).mp4"
    );
    assert_eq!(
        download_output_path(&"Jane Doe".to_string(), &"A Film".to_string(), 1999),
        "films/1999/Jane Doe - A Film (1999).mp4"
    );
}

#[test]
fn source_url_substitutes_the_media_id() {
    assert_eq!(
        vimeo_url(&"abc".to_string()),
        "https://player.vimeo.com/video/abc?app_id=122963"
    );
}

#[test]
fn tool_arguments_follow_the_fixed_template() {
    let args = youtube_dl_args(&"films/2020/a.mp4".to_string(), &"https://u".to_string());
    assert_eq!(
        args,
        vec![
            "--referer",
            "https://offstream.dk/",
            "-f",
            "bestvideo+bestaudio",
            "--merge-output-format",
            "mp4",
            "-o",
            "films/2020/a.mp4",
            "https://u",
        ]
    );
}

#[test]
fn prepare_download_needs_a_status_row() {
    let mut db = Database::new();
    let film = missing(4, "X", "Y", 2020);
    let res = prepare_download(&db, &film);
    assert!(matches!(res, Err(Error { kind: ErrorKind::DatabaseError(_) })));
    db.create_film_status(
        4,
        &GetFilmResponseStatus {
            status: "ok".to_string(),
            vimeo_id: Some("v99".to_string()),
            greeting_vimeo_id: None,
        },
    )
    .unwrap();
    let plan = prepare_download(&db, &film).unwrap();
    assert_eq!(plan.film_id, 4);
    assert_eq!(plan.output_path, "films/2020/Y - X (2020).mp4");
    assert_eq!(plan.url, "https://player.vimeo.com/video/v99?app_id=122963");
    assert_eq!(plan.args.len(), 9);
    assert_eq!(plan.args[7], plan.output_path);
    assert_eq!(plan.args[8], plan.url);
}

#[test]
fn lifecycle_start_and_result_writes() {
    let mut db = Database::new();
    let path = "films/2020/Y - X (2020).mp4".to_string();
    record_download_started(&mut db, 4, &path);
    assert_eq!(db.film_downloads.len(), 1);
    assert_eq!(db.film_downloads[0].film_id, 4);
    assert_eq!(db.film_downloads[0].finished_at, None);
    assert_eq!(db.film_downloads[0].path.as_deref(), Some(path.as_str()));

    // A failed invocation leaves the checkpoint standing.
    record_download_result(&mut db, 4, &path, false);
    assert_eq!(db.film_downloads.len(), 1);
    assert_eq!(db.film_downloads[0].finished_at, None);

    // A successful one replaces it with a finished row.
    record_download_result(&mut db, 4, &path, true);
    assert_eq!(db.film_downloads.len(), 1);
    assert!(db.film_downloads[0].finished_at.is_some());
    let started = db.film_downloads[0].started_at;
    let finished = db.film_downloads[0].finished_at.unwrap();
    assert!(finished >= started);
}

#[test]
fn restarting_an_attempt_keeps_one_row() {
    let mut db = Database::new();
    let path = "films/1999/a.mp4".to_string();
    record_download_started(&mut db, 9, &path);
    record_download_started(&mut db, 9, &path);
    assert_eq!(db.film_downloads.len(), 1);
    assert_eq!(db.film_downloads[0].finished_at, None);
}

#[test]
fn xsrf_token_is_decoded_from_the_cookie() {
    let cookies = vec![
        ("session".to_string(), "zzz".to_string()),
        ("XSRF-TOKEN".to_string(), "abc%20def%3D".to_string()),
        ("XSRF-TOKEN".to_string(), "later".to_string()),
    ];
    let token = extract_xsrf_token(&cookies).unwrap();
    assert_eq!(token, "abc def=");
}

#[test]
fn missing_xsrf_cookie_is_invalid() {
    let cookies = vec![("session".to_string(), "zzz".to_string())];
    let res = extract_xsrf_token(&cookies);
    assert!(matches!(res, Err(Error { kind: ErrorKind::InvalidXsrfToken })));
}

#[test]
fn undecodable_xsrf_cookie_is_a_decode_error() {
    let cookies = vec![("XSRF-TOKEN".to_string(), "%FF".to_string())];
    let res = extract_xsrf_token(&cookies);
    assert!(matches!(res, Err(Error { kind: ErrorKind::UrlDecodeError })));
}
