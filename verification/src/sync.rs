//! Catalog synchronization: the diff engine and the ingest pipeline.
//!
//! The diff engine computes, in remote order, exactly the ids that have no
//! catalog entry yet. The ingest pipeline normalizes one fetched record into
//! the store in fixed order — entry row, thumbnails, genres, countries,
//! competitions, year, status — with every step isolated: a failing step
//! never prevents the later ones, so partial data beats no data.

use vstd::prelude::*;

use crate::database::{
    Database, CompetitionRow, FilmGenreRow, FilmCountryRow, FilmRow, FilmStatusRow, FilmYearRow,
    ThumbnailRow, film_thumbnails_spec, spec_has_film, spec_has_genre, spec_has_country,
    spec_genre_id, spec_country_id, sync_genres_spec, sync_countries_spec,
    unchanged_but_thumbnails, unchanged_but_film_genres, unchanged_but_film_countries,
    unchanged_but_film_competitions,
};
use crate::error::{Error, ErrorKind};
use crate::record::{FilmCountry, FilmGenre, FilmListing, FilmThumbnail, GetFilmResponse,
    GetFilmResponseData};

verus! {

/// The subsequence of `ids` with no catalog entry, in input order.
pub open spec fn missing_ids_spec(films: Seq<FilmRow>, ids: Seq<u64>) -> Seq<u64>
    decreases ids.len(),
{
    if ids.len() == 0 {
        Seq::empty()
    } else {
        let prev = missing_ids_spec(films, ids.drop_last());
        if spec_has_film(films, ids.last()) {
            prev
        } else {
            prev.push(ids.last())
        }
    }
}

/// The ids to fetch from a listing: ids of well-formed entries that have no
/// catalog entry yet, in remote order; malformed entries are skipped.
pub open spec fn fetch_plan_spec(films: Seq<FilmRow>, entries: Seq<crate::record::FilmSummary>) -> Seq<u64>
    decreases entries.len(),
{
    if entries.len() == 0 {
        Seq::empty()
    } else {
        let prev = fetch_plan_spec(films, entries.drop_last());
        match entries.last().id {
            Some(i) => if !spec_has_film(films, i) {
                prev.push(i)
            } else {
                prev
            },
            None => prev,
        }
    }
}

/// Given a list of `film_ids`, returns the sublist of ids not currently
/// present in the database, preserving the input order. One point lookup per
/// candidate id.
pub fn film_ids_not_in_db(db: &Database, film_ids: &Vec<u64>) -> (r: Vec<u64>)
    ensures
        r@ == missing_ids_spec(db.films@, film_ids@),
{
    let mut res: Vec<u64> = Vec::new();
    let mut k: usize = 0;
    while k < film_ids.len()
        invariant
            0 <= k <= film_ids@.len(),
            res@ == missing_ids_spec(db.films@, film_ids@.subrange(0, k as int)),
        decreases film_ids@.len() - k,
    {
        let id = film_ids[k];
        if !db.film_exists(id) {
            res.push(id);
        }
        proof {
            assert(film_ids@.subrange(0, k + 1 as int).drop_last() =~= film_ids@.subrange(
                0,
                k as int,
            ));
        }
        k = k + 1;
    }
    proof {
        assert(film_ids@.subrange(0, film_ids@.len() as int) =~= film_ids@);
    }
    res
}

/// Plans one sync run from the remote catalog list: fails when the listing
/// carried no data field, and otherwise returns the ids still to fetch, in
/// remote order.
pub fn films_to_fetch(db: &Database, listing: &FilmListing) -> (r: Result<Vec<u64>, Error>)
    ensures
        listing.data is Some ==> r is Ok && r->Ok_0@ == fetch_plan_spec(
            db.films@,
            listing.data->Some_0@,
        ),
        listing.data is None ==> r is Err && r->Err_0.kind is ApiError,
{
    match &listing.data {
        Some(entries) => {
            let mut res: Vec<u64> = Vec::new();
            let mut k: usize = 0;
            while k < entries.len()
                invariant
                    0 <= k <= entries@.len(),
                    res@ == fetch_plan_spec(db.films@, entries@.subrange(0, k as int)),
                decreases entries@.len() - k,
            {
                match entries[k].id {
                    Some(id) => {
                        if !db.film_exists(id) {
                            res.push(id);
                        }
                    },
                    None => {},
                }
                proof {
                    assert(entries@.subrange(0, k + 1 as int).drop_last() =~= entries@.subrange(
                        0,
                        k as int,
                    ));
                }
                k = k + 1;
            }
            proof {
                assert(entries@.subrange(0, entries@.len() as int) =~= entries@);
            }
            Ok(res)
        },
        None => Err(
            Error {
                kind: ErrorKind::ApiError(
                    "API response did not include a .data field".to_owned(),
                ),
            },
        ),
    }
}

/// Some stored pair carries this resolution key.
pub open spec fn spec_pair_resolution(pairs: Seq<(String, String)>, resolution: Seq<char>) -> bool {
    exists|i: int| 0 <= i < pairs.len() && (#[trigger] pairs[i]).0@ == resolution
}

/// The thumbnail table after ingesting a record's thumbnails: each one whose
/// resolution was not already stored for the film (as of the start of the
/// step) is appended, in record order.
pub open spec fn ingest_thumbnails_spec(
    pre: Seq<ThumbnailRow>,
    film_id: u64,
    list: Seq<FilmThumbnail>,
) -> Seq<ThumbnailRow>
    decreases list.len(),
{
    if list.len() == 0 {
        pre
    } else {
        let prev = ingest_thumbnails_spec(pre, film_id, list.drop_last());
        let t = list.last();
        if spec_pair_resolution(film_thumbnails_spec(pre, film_id), t.resolution@) {
            prev
        } else {
            prev.push(ThumbnailRow { film_id, resolution: t.resolution, url: Some(t.url) })
        }
    }
}

/// The association table after linking the film to each genre of the batch
/// whose natural key is present in the genre table; a key not found is
/// skipped, linking no row.
pub open spec fn genre_assocs_spec(
    assocs: Seq<FilmGenreRow>,
    genres: Seq<crate::database::GenreRow>,
    film_id: u64,
    batch: Seq<FilmGenre>,
) -> Seq<FilmGenreRow>
    decreases batch.len(),
{
    if batch.len() == 0 {
        assocs
    } else {
        let prev = genre_assocs_spec(assocs, genres, film_id, batch.drop_last());
        let g = batch.last();
        if spec_has_genre(genres, g.id@) {
            prev.push(FilmGenreRow { film_id, genre_id: spec_genre_id(genres, g.id@) })
        } else {
            prev
        }
    }
}

/// The association table after linking the film to each country of the batch
/// whose natural key is present in the country table.
pub open spec fn country_assocs_spec(
    assocs: Seq<FilmCountryRow>,
    countries: Seq<crate::database::CountryRow>,
    film_id: u64,
    batch: Seq<FilmCountry>,
) -> Seq<FilmCountryRow>
    decreases batch.len(),
{
    if batch.len() == 0 {
        assocs
    } else {
        let prev = country_assocs_spec(assocs, countries, film_id, batch.drop_last());
        let c = batch.last();
        if spec_has_country(countries, c.code@) {
            prev.push(FilmCountryRow { film_id, country_id: spec_country_id(countries, c.code@) })
        } else {
            prev
        }
    }
}

/// The competition table after appending one row per competition name, in
/// record order.
pub open spec fn competitions_spec(
    comps: Seq<CompetitionRow>,
    film_id: u64,
    names: Seq<String>,
) -> Seq<CompetitionRow>
    decreases names.len(),
{
    if names.len() == 0 {
        comps
    } else {
        competitions_spec(comps, film_id, names.drop_last()).push(
            CompetitionRow { film_id, name: names.last() },
        )
    }
}

/// The catalog entry row built from one record.
pub open spec fn film_row_of(id: u64, d: GetFilmResponseData) -> FilmRow {
    FilmRow {
        id,
        title: d.title,
        original_title: d.original_title,
        director: d.director,
        production_year: d.production_year,
        duration: d.duration,
        description: d.description,
        age_restriction: d.age_restriction,
    }
}

/// Does any stored pair carry this resolution key?
fn contains_resolution(pairs: &Vec<(String, String)>, resolution: &String) -> (r: bool)
    ensures
        r == spec_pair_resolution(pairs@, resolution@),
{
    let mut i: usize = 0;
    while i < pairs.len()
        invariant
            0 <= i <= pairs@.len(),
            forall|j: int| 0 <= j < i ==> (#[trigger] pairs@[j]).0@ != resolution@,
        decreases pairs@.len() - i,
    {
        if pairs[i].0 == *resolution {
            return true;
        }
        i = i + 1;
    }
    false
}

/// Thumbnail step of the pipeline: appends each thumbnail whose resolution is
/// not already stored for the film, checked against the rows as they stood
/// when the step began.
fn ingest_thumbnails(db: &mut Database, film_id: u64, list: &Vec<FilmThumbnail>)
    requires
        old(db).wf(),
    ensures
        final(db).wf(),
        final(db).thumbnails@ == ingest_thumbnails_spec(old(db).thumbnails@, film_id, list@),
        unchanged_but_thumbnails(old(db), final(db)),
{
    let stored = match db.get_film_thumbnails(film_id) {
        Ok(v) => v,
        Err(_) => {
            return ;
        },
    };
    let mut k: usize = 0;
    while k < list.len()
        invariant
            old(db).wf(),
            db.wf(),
            0 <= k <= list@.len(),
            stored@ == film_thumbnails_spec(old(db).thumbnails@, film_id),
            db.thumbnails@ == ingest_thumbnails_spec(
                old(db).thumbnails@,
                film_id,
                list@.subrange(0, k as int),
            ),
            unchanged_but_thumbnails(old(db), db),
        decreases list@.len() - k,
    {
        let t = &list[k];
        if !contains_resolution(&stored, &t.resolution) {
            let _ = db.create_film_thumbnail(film_id, &t.resolution, Some(&t.url));
        }
        proof {
            assert(list@.subrange(0, k + 1 as int).drop_last() =~= list@.subrange(0, k as int));
        }
        k = k + 1;
    }
    proof {
        assert(list@.subrange(0, list@.len() as int) =~= list@);
    }
}

/// Genre association step: links the film to each genre of the batch found in
/// the genre table; a genre not found despite dedup is skipped alone.
fn ingest_genre_assocs(db: &mut Database, film_id: u64, batch: &Vec<FilmGenre>)
    requires
        old(db).wf(),
    ensures
        final(db).wf(),
        final(db).film_genres@ == genre_assocs_spec(
            old(db).film_genres@,
            old(db).genres@,
            film_id,
            batch@,
        ),
        unchanged_but_film_genres(old(db), final(db)),
{
    let mut k: usize = 0;
    while k < batch.len()
        invariant
            old(db).wf(),
            db.wf(),
            0 <= k <= batch@.len(),
            db.film_genres@ == genre_assocs_spec(
                old(db).film_genres@,
                old(db).genres@,
                film_id,
                batch@.subrange(0, k as int),
            ),
            unchanged_but_film_genres(old(db), db),
        decreases batch@.len() - k,
    {
        let g = &batch[k];
        match db.get_genre(g.id.as_str()) {
            Ok(Some(genre_id)) => {
                let _ = db.create_film_genre(film_id, genre_id);
            },
            _ => {},
        }
        proof {
            assert(batch@.subrange(0, k + 1 as int).drop_last() =~= batch@.subrange(0, k as int));
        }
        k = k + 1;
    }
    proof {
        assert(batch@.subrange(0, batch@.len() as int) =~= batch@);
    }
}

/// Country association step, the mirror of the genre one.
fn ingest_country_assocs(db: &mut Database, film_id: u64, batch: &Vec<FilmCountry>)
    requires
        old(db).wf(),
    ensures
        final(db).wf(),
        final(db).film_countries@ == country_assocs_spec(
            old(db).film_countries@,
            old(db).countries@,
            film_id,
            batch@,
        ),
        unchanged_but_film_countries(old(db), final(db)),
{
    let mut k: usize = 0;
    while k < batch.len()
        invariant
            old(db).wf(),
            db.wf(),
            0 <= k <= batch@.len(),
            db.film_countries@ == country_assocs_spec(
                old(db).film_countries@,
                old(db).countries@,
                film_id,
                batch@.subrange(0, k as int),
            ),
            unchanged_but_film_countries(old(db), db),
        decreases batch@.len() - k,
    {
        let c = &batch[k];
        match db.get_country(c.code.as_str()) {
            Ok(Some(country_id)) => {
                let _ = db.create_film_country(film_id, country_id);
            },
            _ => {},
        }
        proof {
            assert(batch@.subrange(0, k + 1 as int).drop_last() =~= batch@.subrange(0, k as int));
        }
        k = k + 1;
    }
    proof {
        assert(batch@.subrange(0, batch@.len() as int) =~= batch@);
    }
}

/// Competition step: one row per name, append-only.
fn ingest_competitions(db: &mut Database, film_id: u64, names: &Vec<String>)
    requires
        old(db).wf(),
    ensures
        final(db).wf(),
        final(db).film_competitions@ == competitions_spec(
            old(db).film_competitions@,
            film_id,
            names@,
        ),
        unchanged_but_film_competitions(old(db), final(db)),
{
    let mut k: usize = 0;
    while k < names.len()
        invariant
            old(db).wf(),
            db.wf(),
            0 <= k <= names@.len(),
            db.film_competitions@ == competitions_spec(
                old(db).film_competitions@,
                film_id,
                names@.subrange(0, k as int),
            ),
            unchanged_but_film_competitions(old(db), db),
        decreases names@.len() - k,
    {
        let _ = db.create_film_competition(film_id, &names[k]);
        proof {
            assert(names@.subrange(0, k + 1 as int).drop_last() =~= names@.subrange(0, k as int));
        }
        k = k + 1;
    }
    proof {
        assert(names@.subrange(0, names@.len() as int) =~= names@);
    }
}

/// Ingests one fully detailed record for the film `film_id`, in fixed order:
/// entry row, thumbnails, genres and their associations, countries and
/// theirs, competitions, year row, status row. Every step is isolated — in
/// particular, whatever came of the earlier steps, the year and status rows
/// are always appended, and the download table is never touched.
pub fn ingest_film(db: &mut Database, film_id: u64, film: &GetFilmResponse)
    requires
        old(db).wf(),
    ensures
        final(db).wf(),
        final(db).films@ == if spec_has_film(old(db).films@, film_id) {
            old(db).films@
        } else {
            old(db).films@.push(film_row_of(film_id, film.data))
        },
        final(db).thumbnails@ == ingest_thumbnails_spec(
            old(db).thumbnails@,
            film_id,
            film.data.thumbnails@,
        ),
        final(db).genres@ == sync_genres_spec(old(db).genres@, film.data.genres@),
        final(db).film_genres@ == genre_assocs_spec(
            old(db).film_genres@,
            sync_genres_spec(old(db).genres@, film.data.genres@),
            film_id,
            film.data.genres@,
        ),
        final(db).countries@ == sync_countries_spec(old(db).countries@, film.data.countries@),
        final(db).film_countries@ == country_assocs_spec(
            old(db).film_countries@,
            sync_countries_spec(old(db).countries@, film.data.countries@),
            film_id,
            film.data.countries@,
        ),
        final(db).film_competitions@ == competitions_spec(
            old(db).film_competitions@,
            film_id,
            film.data.competitions@,
        ),
        final(db).film_years@ == old(db).film_years@.push(
            FilmYearRow {
                id: film.data.year.id,
                film_id,
                title: film.data.year.title,
                product_id: film.data.year.product_id,
            },
        ),
        final(db).film_status@ == old(db).film_status@.push(
            FilmStatusRow {
                film_id,
                status: film.status.status,
                vimeo_id: film.status.vimeo_id,
                greeting_vimeo_id: film.status.greeting_vimeo_id,
            },
        ),
        final(db).film_downloads@ == old(db).film_downloads@,
{
    let _ = db.create_film(film_id, &film.data);
    ingest_thumbnails(db, film_id, &film.data.thumbnails);
    let _ = db.sync_genres(&film.data.genres);
    ingest_genre_assocs(db, film_id, &film.data.genres);
    let _ = db.sync_countries(&film.data.countries);
    ingest_country_assocs(db, film_id, &film.data.countries);
    ingest_competitions(db, film_id, &film.data.competitions);
    let _ = db.create_film_year(film_id, &film.data.year);
    let _ = db.create_film_status(film_id, &film.status);
}

} // verus!
