use offstream::database::Database;
use offstream::error::{Error, ErrorKind};
use offstream::record::{FilmCountry, FilmGenre, FilmYear, GetFilmResponseData,
    GetFilmResponseStatus};
use offstream::sync::film_ids_not_in_db;

fn film_data(title: &str, director: &str, year: u64) -> GetFilmResponseData {
    GetFilmResponseData {
        title: Some(title.to_string()),
        original_title: None,
        director: Some(director.to_string()),
        production_year: Some(year),
        duration: Some(90),
        description: None,
        age_restriction: None,
        thumbnails: Vec::new(),
        genres: Vec::new(),
        countries: Vec::new(),
        year: FilmYear { id: 1, title: None, product_id: None },
        competitions: Vec::new(),
    }
}

fn genre(id: &str, title: &str) -> FilmGenre {
    FilmGenre { id: id.to_string(), title: title.to_string() }
}

fn country(title: &str, code: &str) -> FilmCountry {
    FilmCountry { title: title.to_string(), code: code.to_string() }
}

#[test]
fn sync_genres_is_idempotent() {
    let mut db = Database::new();
    let batch = vec![genre("drama", "Drama"), genre("comedy", "Comedy"), genre("drama", "Other")];
    db.sync_genres(&batch).unwrap();
    assert_eq!(db.genres.len(), 2);
    db.sync_genres(&batch).unwrap();
    db.sync_genres(&batch).unwrap();
    assert_eq!(db.genres.len(), 2);
    assert_eq!(db.genres[0].identifier, "drama");
    // First write wins: the later title for the same key is not taken over.
    assert_eq!(db.genres[0].title, "Drama");
    assert_eq!(db.genres[0].id, 0);
    assert_eq!(db.genres[1].identifier, "comedy");
    assert_eq!(db.genres[1].id, 1);
}

#[test]
fn sync_countries_is_idempotent() {
    let mut db = Database::new();
    let batch = vec![country("Denmark", "dk"), country("Sweden", "se")];
    db.sync_countries(&batch).unwrap();
    db.sync_countries(&batch).unwrap();
    assert_eq!(db.countries.len(), 2);
    assert_eq!(db.countries[0].code, "dk");
    assert_eq!(db.countries[1].code, "se");
    // Overlapping later batch only adds what is missing.
    let more = vec![country("Danmark", "dk"), country("Norway", "no")];
    db.sync_countries(&more).unwrap();
    assert_eq!(db.countries.len(), 3);
    assert_eq!(db.countries[0].title, "Denmark");
    assert_eq!(db.countries[2].code, "no");
}

#[test]
fn diff_engine_returns_missing_ids_in_order() {
    let mut db = Database::new();
    db.create_film(1, &film_data("A", "D", 2000)).unwrap();
    db.create_film(3, &film_data("B", "D", 2001)).unwrap();
    let remote = vec![1, 2, 3, 4];
    let missing = film_ids_not_in_db(&db, &remote);
    assert_eq!(missing, vec![2, 4]);
}

#[test]
fn create_film_rejects_duplicate_id() {
    let mut db = Database::new();
    db.create_film(5, &film_data("A", "D", 2000)).unwrap();
    let res = db.create_film(5, &film_data("B", "E", 2001));
    assert!(matches!(res, Err(Error { kind: ErrorKind::DatabaseError(_) })));
    assert_eq!(db.films.len(), 1);
    assert_eq!(db.films[0].title.as_deref(), Some("A"));
}

#[test]
fn create_genre_rejects_duplicate_key() {
    let mut db = Database::new();
    db.create_genre(&"drama".to_string(), &"Drama".to_string()).unwrap();
    let res = db.create_genre(&"drama".to_string(), &"Again".to_string());
    assert!(matches!(res, Err(Error { kind: ErrorKind::DatabaseError(_) })));
    assert_eq!(db.genres.len(), 1);
}

#[test]
fn get_genre_and_country_lookups() {
    let mut db = Database::new();
    db.create_genre(&"drama".to_string(), &"Drama".to_string()).unwrap();
    db.create_country(&"Denmark".to_string(), &"dk".to_string()).unwrap();
    assert_eq!(db.get_genre("drama").unwrap(), Some(0));
    assert!(matches!(
        db.get_genre("comedy"),
        Err(Error { kind: ErrorKind::DatabaseError(_) })
    ));
    assert_eq!(db.get_country("dk").unwrap(), Some(0));
    assert!(matches!(
        db.get_country("se"),
        Err(Error { kind: ErrorKind::DatabaseError(_) })
    ));
}

#[test]
fn thumbnails_without_url_are_not_listed() {
    let mut db = Database::new();
    db.create_film_thumbnail(9, &"small".to_string(), Some(&"http://a".to_string())).unwrap();
    db.create_film_thumbnail(9, &"large".to_string(), None).unwrap();
    db.create_film_thumbnail(8, &"small".to_string(), Some(&"http://b".to_string())).unwrap();
    let thumbs = db.get_film_thumbnails(9).unwrap();
    assert_eq!(thumbs.len(), 1);
    assert_eq!(thumbs[0].0, "small");
    assert_eq!(thumbs[0].1, "http://a");
}

#[test]
fn film_status_lookup_needs_media_id() {
    let mut db = Database::new();
    assert!(matches!(
        db.get_film_status(3),
        Err(Error { kind: ErrorKind::DatabaseError(_) })
    ));
    let no_media = GetFilmResponseStatus {
        status: "ok".to_string(),
        vimeo_id: None,
        greeting_vimeo_id: None,
    };
    db.create_film_status(3, &no_media).unwrap();
    assert!(db.get_film_status(3).is_err());
    let with_media = GetFilmResponseStatus {
        status: "ok".to_string(),
        vimeo_id: Some("abc".to_string()),
        greeting_vimeo_id: None,
    };
    db.create_film_status(3, &with_media).unwrap();
    let st = db.get_film_status(3).unwrap();
    assert_eq!(st.film_id, 3);
    assert_eq!(st.vimeo_id, "abc");
    assert_eq!(st.status.as_deref(), Some("ok"));
    assert_eq!(st.greeting_vimeo_id, None);
}

#[test]
fn upsert_download_replaces_the_row() {
    let mut db = Database::new();
    db.upsert_film_download(1, false, Some(&"films/x".to_string()), 100).unwrap();
    assert_eq!(db.film_downloads.len(), 1);
    assert_eq!(db.film_downloads[0].started_at, 100);
    assert_eq!(db.film_downloads[0].finished_at, None);
    db.upsert_film_download(1, true, Some(&"films/y".to_string()), 200).unwrap();
    assert_eq!(db.film_downloads.len(), 1);
    assert_eq!(db.film_downloads[0].film_id, 1);
    assert_eq!(db.film_downloads[0].started_at, 200);
    assert_eq!(db.film_downloads[0].finished_at, Some(200));
    assert_eq!(db.film_downloads[0].path.as_deref(), Some("films/y"));
}

#[test]
fn checkpoint_keeps_entry_missing_until_finished() {
    let mut db = Database::new();
    db.create_film(10, &film_data("X", "Y", 2020)).unwrap();
    // Never attempted: the entry is missing.
    let missing = db.get_missing_downloads().unwrap();
    assert_eq!(missing.len(), 1);
    assert_eq!(missing[0].id, 10);
    // Started but not finished (the pre-invocation checkpoint): still missing.
    db.upsert_film_download(10, false, Some(&"films/2020/Y - X (2020).mp4".to_string()), 50)
        .unwrap();
    let missing = db.get_missing_downloads().unwrap();
    assert_eq!(missing.len(), 1);
    assert_eq!(missing[0].id, 10);
    assert_eq!(missing[0].title, "X");
    assert_eq!(missing[0].director, "Y");
    assert_eq!(missing[0].production_year, 2020);
    assert_eq!(db.film_downloads[0].finished_at, None);
    // Finished: no longer missing.
    db.upsert_film_download(10, true, Some(&"films/2020/Y - X (2020).mp4".to_string()), 60)
        .unwrap();
    let missing = db.get_missing_downloads().unwrap();
    assert_eq!(missing.len(), 0);
}

#[test]
fn films_without_naming_fields_are_not_offered_for_download() {
    let mut db = Database::new();
    let mut data = film_data("A", "D", 2000);
    data.director = None;
    db.create_film(1, &data).unwrap();
    db.create_film(2, &film_data("B", "E", 2001)).unwrap();
    let missing = db.get_missing_downloads().unwrap();
    assert_eq!(missing.len(), 1);
    assert_eq!(missing[0].id, 2);
}

#[test]
fn error_from_kind_keeps_the_kind() {
    let e = Error::from(ErrorKind::XsrfTokenMissing);
    assert!(matches!(e.kind, ErrorKind::XsrfTokenMissing));
    let e = Error::from(ErrorKind::ApiError("bad".to_string()));
    assert!(matches!(e.kind, ErrorKind::ApiError(_)));
}
