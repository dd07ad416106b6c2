use offstream::database::Database;
use offstream::download::prepare_download;
use offstream::error::{Error, ErrorKind};
use offstream::record::{FilmGenre, FilmListing, FilmSummary, FilmThumbnail, FilmYear,
    GetFilmResponse, GetFilmResponseData, GetFilmResponseStatus};
use offstream::sync::{films_to_fetch, ingest_film};

fn record_ten() -> GetFilmResponse {
    GetFilmResponse {
        data: GetFilmResponseData {
            title: Some("X".to_string()),
            original_title: None,
            director: Some("Y".to_string()),
            production_year: Some(2020),
            duration: Some(100),
            description: None,
            age_restriction: None,
            thumbnails: Vec::new(),
            genres: vec![FilmGenre { id: "drama".to_string(), title: "Drama".to_string() }],
            countries: Vec::new(),
            year: FilmYear { id: 5, title: None, product_id: None },
            competitions: Vec::new(),
        },
        status: GetFilmResponseStatus {
            status: "ok".to_string(),
            vimeo_id: Some("abc".to_string()),
            greeting_vimeo_id: None,
        },
    }
}

#[test]
fn end_to_end_single_record() {
    let mut db = Database::new();
    let listing = FilmListing { data: Some(vec![FilmSummary { id: Some(10) }]) };
    let plan = films_to_fetch(&db, &listing).unwrap();
    assert_eq!(plan, vec![10]);

    ingest_film(&mut db, 10, &record_ten());

    assert_eq!(db.films.len(), 1);
    assert_eq!(db.films[0].id, 10);
    assert_eq!(db.films[0].title.as_deref(), Some("X"));
    assert_eq!(db.genres.len(), 1);
    assert_eq!(db.genres[0].identifier, "drama");
    assert_eq!(db.film_genres.len(), 1);
    assert_eq!(db.film_genres[0].film_id, 10);
    assert_eq!(db.film_genres[0].genre_id, db.genres[0].id);
    assert_eq!(db.countries.len(), 0);
    assert_eq!(db.film_countries.len(), 0);
    assert_eq!(db.film_competitions.len(), 0);
    assert_eq!(db.film_years.len(), 1);
    assert_eq!(db.film_years[0].id, 5);
    assert_eq!(db.film_years[0].film_id, 10);
    assert_eq!(db.film_status.len(), 1);
    assert_eq!(db.film_status[0].film_id, 10);
    assert_eq!(db.film_status[0].vimeo_id.as_deref(), Some("abc"));
    assert_eq!(db.film_downloads.len(), 0);

    // A second planning run finds nothing left to fetch.
    let plan = films_to_fetch(&db, &listing).unwrap();
    assert_eq!(plan.len(), 0);

    // The entry now appears in the pending set, with the derived path.
    let missing = db.get_missing_downloads().unwrap();
    assert_eq!(missing.len(), 1);
    assert_eq!(missing[0].id, 10);
    let plan = prepare_download(&db, &missing[0]).unwrap();
    assert_eq!(plan.output_path, "films/2020/Y - X (2020).mp4");
    assert_eq!(plan.url, "https://player.vimeo.com/video/abc?app_id=122963");
}

#[test]
fn ingest_isolates_a_failing_step() {
    let mut db = Database::new();
    // The entry row already exists, so the first pipeline step fails.
    ingest_film(&mut db, 7, &record_ten());
    assert_eq!(db.film_years.len(), 1);
    assert_eq!(db.film_status.len(), 1);
    ingest_film(&mut db, 7, &record_ten());
    // The failing entry insert did not prevent the later steps: the year and
    // status rows of the record were written again.
    assert_eq!(db.films.len(), 1);
    assert_eq!(db.film_years.len(), 2);
    assert_eq!(db.film_status.len(), 2);
    assert_eq!(db.film_years[1].film_id, 7);
    assert_eq!(db.film_status[1].film_id, 7);
    // Reference dedup still holds across the repeated ingest.
    assert_eq!(db.genres.len(), 1);
}

#[test]
fn ingest_skips_stored_thumbnail_resolutions() {
    let mut db = Database::new();
    db.create_film_thumbnail(7, &"small".to_string(), Some(&"http://old".to_string())).unwrap();
    let mut record = record_ten();
    record.data.thumbnails = vec![
        FilmThumbnail { resolution: "small".to_string(), url: "http://new".to_string() },
        FilmThumbnail { resolution: "large".to_string(), url: "http://l".to_string() },
    ];
    ingest_film(&mut db, 7, &record);
    assert_eq!(db.thumbnails.len(), 2);
    assert_eq!(db.thumbnails[0].url.as_deref(), Some("http://old"));
    assert_eq!(db.thumbnails[1].resolution, "large");
    assert_eq!(db.thumbnails[1].film_id, 7);
}

#[test]
fn ingest_links_countries_and_competitions() {
    let mut db = Database::new();
    let mut record = record_ten();
    record.data.countries = vec![
        offstream::record::FilmCountry { title: "Denmark".to_string(), code: "dk".to_string() },
        offstream::record::FilmCountry { title: "Sweden".to_string(), code: "se".to_string() },
    ];
    record.data.competitions = vec!["Main".to_string(), "Docs".to_string()];
    ingest_film(&mut db, 11, &record);
    assert_eq!(db.countries.len(), 2);
    assert_eq!(db.film_countries.len(), 2);
    assert_eq!(db.film_countries[0].film_id, 11);
    assert_eq!(db.film_countries[0].country_id, db.countries[0].id);
    assert_eq!(db.film_competitions.len(), 2);
    assert_eq!(db.film_competitions[0].name, "Main");
    assert_eq!(db.film_competitions[1].name, "Docs");
}

#[test]
fn listing_without_data_field_is_an_api_error() {
    let db = Database::new();
    let listing = FilmListing { data: None };
    let res = films_to_fetch(&db, &listing);
    assert!(matches!(res, Err(Error { kind: ErrorKind::ApiError(_) })));
}

#[test]
fn malformed_listing_entries_are_skipped() {
    let mut db = Database::new();
    db.create_film(
        1,
        &GetFilmResponseData {
            title: Some("A".to_string()),
            original_title: None,
            director: Some("D".to_string()),
            production_year: Some(2000),
            duration: None,
            description: None,
            age_restriction: None,
            thumbnails: Vec::new(),
            genres: Vec::new(),
            countries: Vec::new(),
            year: FilmYear { id: 1, title: None, product_id: None },
            competitions: Vec::new(),
        },
    )
    .unwrap();
    let listing = FilmListing {
        data: Some(vec![
            FilmSummary { id: Some(1) },
            FilmSummary { id: None },
            FilmSummary { id: Some(2) },
        ]),
    };
    let plan = films_to_fetch(&db, &listing).unwrap();
    assert_eq!(plan, vec![2]);
}

#[test]
fn record_getters_return_the_fields() {
    let g = FilmGenre { id: "drama".to_string(), title: "Drama".to_string() };
    assert_eq!(g.id(), "drama");
    assert_eq!(g.title(), "Drama");
    let c = offstream::record::FilmCountry { title: "Denmark".to_string(), code: "dk".to_string() };
    assert_eq!(c.title(), "Denmark");
    assert_eq!(c.code(), "dk");
}
