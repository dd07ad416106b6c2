//! Laws of the store model: what holds of reference dedup and of the download
//! lifecycle for every input, proved once and for all over the spec-level
//! models that the executable methods are verified against.

use vstd::prelude::*;

use crate::database::{
    CountryRow, FilmDownload, FilmRow, GenreRow, MissingFilmDownload, drop_download,
    missing_downloads_spec, spec_downloadable, spec_has_country, spec_has_genre, spec_pending,
    sync_countries_spec, sync_genres_spec, upsert_download_spec,
};
use crate::record::{FilmCountry, FilmGenre};

verus! {

/// Membership after a dedup run: a natural key is present afterwards exactly
/// when it was present before or occurs in the batch.
pub proof fn lemma_sync_genres_membership(
    genres: Seq<GenreRow>,
    batch: Seq<FilmGenre>,
    key: Seq<char>,
)
    ensures
        spec_has_genre(sync_genres_spec(genres, batch), key) <==> (spec_has_genre(genres, key)
            || exists|i: int| 0 <= i < batch.len() && (#[trigger] batch[i]).id@ == key),
    decreases batch.len(),
{
    if batch.len() > 0 {
        let shorter = batch.drop_last();
        let prev = sync_genres_spec(genres, shorter);
        lemma_sync_genres_membership(genres, shorter, key);
        let g = batch.last();
        if spec_has_genre(prev, g.id@) {
            if g.id@ == key {
                assert(spec_has_genre(prev, key));
            }
            if exists|i: int| 0 <= i < batch.len() && (#[trigger] batch[i]).id@ == key {
                let i = choose|i: int| 0 <= i < batch.len() && (#[trigger] batch[i]).id@ == key;
                if i < batch.len() - 1 {
                    assert(shorter[i] == batch[i]);
                }
            }
        } else {
            let result = prev.push(GenreRow { id: prev.len() as u64, identifier: g.id, title: g.title });
            if spec_has_genre(result, key) {
                let i = choose|i: int| 0 <= i < result.len() && (#[trigger] result[i]).identifier@
                    == key;
                if i < prev.len() {
                    assert(spec_has_genre(prev, key));
                }
            }
            if spec_has_genre(prev, key) {
                let i = choose|i: int| 0 <= i < prev.len() && (#[trigger] prev[i]).identifier@
                    == key;
                assert(result[i].identifier@ == key);
            }
            if g.id@ == key {
                assert(result[result.len() - 1].identifier@ == key);
            }
            if exists|i: int| 0 <= i < batch.len() && (#[trigger] batch[i]).id@ == key {
                let i = choose|i: int| 0 <= i < batch.len() && (#[trigger] batch[i]).id@ == key;
                if i < batch.len() - 1 {
                    assert(shorter[i] == batch[i]);
                }
            }
        }
    }
}

/// A dedup run whose every key is already present inserts nothing.
proof fn lemma_sync_genres_noop(genres: Seq<GenreRow>, batch: Seq<FilmGenre>)
    requires
        forall|i: int| 0 <= i < batch.len() ==> spec_has_genre(
            genres,
            (#[trigger] batch[i]).id@,
        ),
    ensures
        sync_genres_spec(genres, batch) == genres,
    decreases batch.len(),
{
    if batch.len() > 0 {
        let shorter = batch.drop_last();
        assert(forall|i: int| 0 <= i < shorter.len() ==> shorter[i] == batch[i]);
        lemma_sync_genres_noop(genres, shorter);
        assert(spec_has_genre(genres, batch.last().id@));
    }
}

/// Idempotence of genre dedup: running the same batch twice leaves exactly
/// the table the first run produced — one row per natural key, never a
/// second.
pub proof fn lemma_sync_genres_idempotent(genres: Seq<GenreRow>, batch: Seq<FilmGenre>)
    ensures
        sync_genres_spec(sync_genres_spec(genres, batch), batch) == sync_genres_spec(
            genres,
            batch,
        ),
{
    let once = sync_genres_spec(genres, batch);
    assert forall|i: int| 0 <= i < batch.len() implies spec_has_genre(
        once,
        (#[trigger] batch[i]).id@,
    ) by {
        lemma_sync_genres_membership(genres, batch, batch[i].id@);
    }
    lemma_sync_genres_noop(once, batch);
}

/// Membership after a dedup run over countries; the mirror of the genre law.
pub proof fn lemma_sync_countries_membership(
    countries: Seq<CountryRow>,
    batch: Seq<FilmCountry>,
    key: Seq<char>,
)
    ensures
        spec_has_country(sync_countries_spec(countries, batch), key) <==> (spec_has_country(
            countries,
            key,
        ) || exists|i: int| 0 <= i < batch.len() && (#[trigger] batch[i]).code@ == key),
    decreases batch.len(),
{
    if batch.len() > 0 {
        let shorter = batch.drop_last();
        let prev = sync_countries_spec(countries, shorter);
        lemma_sync_countries_membership(countries, shorter, key);
        let c = batch.last();
        if spec_has_country(prev, c.code@) {
            if c.code@ == key {
                assert(spec_has_country(prev, key));
            }
            if exists|i: int| 0 <= i < batch.len() && (#[trigger] batch[i]).code@ == key {
                let i = choose|i: int| 0 <= i < batch.len() && (#[trigger] batch[i]).code@ == key;
                if i < batch.len() - 1 {
                    assert(shorter[i] == batch[i]);
                }
            }
        } else {
            let result = prev.push(CountryRow { id: prev.len() as u64, title: c.title, code: c.code });
            if spec_has_country(result, key) {
                let i = choose|i: int| 0 <= i < result.len() && (#[trigger] result[i]).code@
                    == key;
                if i < prev.len() {
                    assert(spec_has_country(prev, key));
                }
            }
            if spec_has_country(prev, key) {
                let i = choose|i: int| 0 <= i < prev.len() && (#[trigger] prev[i]).code@ == key;
                assert(result[i].code@ == key);
            }
            if c.code@ == key {
                assert(result[result.len() - 1].code@ == key);
            }
            if exists|i: int| 0 <= i < batch.len() && (#[trigger] batch[i]).code@ == key {
                let i = choose|i: int| 0 <= i < batch.len() && (#[trigger] batch[i]).code@ == key;
                if i < batch.len() - 1 {
                    assert(shorter[i] == batch[i]);
                }
            }
        }
    }
}

/// A country dedup run whose every key is already present inserts nothing.
proof fn lemma_sync_countries_noop(countries: Seq<CountryRow>, batch: Seq<FilmCountry>)
    requires
        forall|i: int| 0 <= i < batch.len() ==> spec_has_country(
            countries,
            (#[trigger] batch[i]).code@,
        ),
    ensures
        sync_countries_spec(countries, batch) == countries,
    decreases batch.len(),
{
    if batch.len() > 0 {
        let shorter = batch.drop_last();
        assert(forall|i: int| 0 <= i < shorter.len() ==> shorter[i] == batch[i]);
        lemma_sync_countries_noop(countries, shorter);
        assert(spec_has_country(countries, batch.last().code@));
    }
}

/// Idempotence of country dedup.
pub proof fn lemma_sync_countries_idempotent(countries: Seq<CountryRow>, batch: Seq<FilmCountry>)
    ensures
        sync_countries_spec(sync_countries_spec(countries, batch), batch) == sync_countries_spec(
            countries,
            batch,
        ),
{
    let once = sync_countries_spec(countries, batch);
    assert forall|i: int| 0 <= i < batch.len() implies spec_has_country(
        once,
        (#[trigger] batch[i]).code@,
    ) by {
        lemma_sync_countries_membership(countries, batch, batch[i].code@);
    }
    lemma_sync_countries_noop(once, batch);
}

/// Dropping a film's rows from a table that has none is the identity.
proof fn lemma_drop_download_identity(downloads: Seq<FilmDownload>, film_id: u64)
    requires
        forall|k: int| 0 <= k < downloads.len() ==> (#[trigger] downloads[k]).film_id != film_id,
    ensures
        drop_download(downloads, film_id) == downloads,
    decreases downloads.len(),
{
    if downloads.len() > 0 {
        let shorter = downloads.drop_last();
        assert(forall|k: int| 0 <= k < shorter.len() ==> shorter[k] == downloads[k]);
        lemma_drop_download_identity(shorter, film_id);
        assert(drop_download(downloads, film_id) =~= downloads);
    }
}

/// Replace semantics of the download checkpoint: writing the lifecycle row of
/// one film twice leaves exactly what the second write alone would leave —
/// one row for the film, with the latest values.
pub proof fn lemma_upsert_download_replaces(
    downloads: Seq<FilmDownload>,
    film_id: u64,
    completed_first: bool,
    path_first: Option<String>,
    time_first: i64,
    completed_second: bool,
    path_second: Option<String>,
    time_second: i64,
)
    ensures
        upsert_download_spec(
            upsert_download_spec(downloads, film_id, completed_first, path_first, time_first),
            film_id,
            completed_second,
            path_second,
            time_second,
        ) == upsert_download_spec(downloads, film_id, completed_second, path_second, time_second),
{
    let kept = drop_download(downloads, film_id);
    let first_row = FilmDownload {
        film_id,
        started_at: time_first,
        finished_at: if completed_first {
            Some(time_first)
        } else {
            None
        },
        path: path_first,
    };
    let once = kept.push(first_row);
    assert(once.drop_last() =~= kept);
    assert(drop_download(once, film_id) == drop_download(kept, film_id));
    crate::database::lemma_drop_download(downloads, film_id);
    lemma_drop_download_identity(kept, film_id);
}

/// In a table just written by a replacing write, the film has exactly one
/// row: the written one, at the end; no other row mentions the film.
pub proof fn lemma_upsert_download_unique(
    downloads: Seq<FilmDownload>,
    film_id: u64,
    completed: bool,
    path: Option<String>,
    time: i64,
)
    ensures
        ({
            let result = upsert_download_spec(downloads, film_id, completed, path, time);
            &&& result.len() >= 1
            &&& result.last() == FilmDownload {
                film_id,
                started_at: time,
                finished_at: if completed {
                    Some(time)
                } else {
                    None
                },
                path,
            }
            &&& forall|k: int| 0 <= k < result.len() - 1 ==> (#[trigger] result[k]).film_id
                != film_id
        }),
{
    crate::database::lemma_drop_download(downloads, film_id);
}

/// An entry of the missing list for each film that can be named and is not
/// finished: the list produced by the store contains it.
pub proof fn lemma_missing_downloads_contains(
    films: Seq<FilmRow>,
    downloads: Seq<FilmDownload>,
    k: int,
)
    requires
        0 <= k < films.len(),
        spec_downloadable(films[k]),
        spec_pending(downloads, films[k].id),
    ensures
        missing_downloads_spec(films, downloads).contains(
            MissingFilmDownload {
                id: films[k].id,
                title: films[k].title->Some_0,
                original_title: films[k].original_title,
                director: films[k].director->Some_0,
                production_year: films[k].production_year->Some_0,
            },
        ),
    decreases films.len(),
{
    let entry = MissingFilmDownload {
        id: films[k].id,
        title: films[k].title->Some_0,
        original_title: films[k].original_title,
        director: films[k].director->Some_0,
        production_year: films[k].production_year->Some_0,
    };
    let result = missing_downloads_spec(films, downloads);
    if k == films.len() - 1 {
        assert(result.last() == entry);
        assert(result.contains(entry)) by {
            assert(result[result.len() - 1] == entry);
        }
    } else {
        let shorter = films.drop_last();
        assert(shorter[k] == films[k]);
        lemma_missing_downloads_contains(shorter, downloads, k);
        let prev = missing_downloads_spec(shorter, downloads);
        let i = choose|i: int| 0 <= i < prev.len() && prev[i] == entry;
        assert(result[i] == entry);
    }
}

/// Durability of the pre-invocation checkpoint: after the started write and
/// before any finish is recorded, a restart sees the entry as still missing —
/// its row is present, unfinished, and the entry stays in the pending list of
/// every store whose film row can name it.
pub proof fn lemma_checkpoint_durable(
    films: Seq<FilmRow>,
    downloads: Seq<FilmDownload>,
    film_id: u64,
    path: Option<String>,
    time: i64,
    k: int,
)
    requires
        0 <= k < films.len(),
        films[k].id == film_id,
        spec_downloadable(films[k]),
    ensures
        ({
            let checkpointed = upsert_download_spec(downloads, film_id, false, path, time);
            &&& spec_pending(checkpointed, film_id)
            &&& checkpointed.last() == FilmDownload {
                film_id,
                started_at: time,
                finished_at: None::<i64>,
                path,
            }
            &&& missing_downloads_spec(films, checkpointed).contains(
                MissingFilmDownload {
                    id: film_id,
                    title: films[k].title->Some_0,
                    original_title: films[k].original_title,
                    director: films[k].director->Some_0,
                    production_year: films[k].production_year->Some_0,
                },
            )
        }),
{
    let checkpointed = upsert_download_spec(downloads, film_id, false, path, time);
    lemma_upsert_download_unique(downloads, film_id, false, path, time);
    assert forall|i: int|
        0 <= i < checkpointed.len() && (#[trigger] checkpointed[i]).film_id == film_id
        implies checkpointed[i].finished_at is None by {
        if i < checkpointed.len() - 1 {
            assert(checkpointed[i].film_id != film_id);
        }
    }
    lemma_missing_downloads_contains(films, checkpointed, k);
}

} // verus!
