//! The persistent store, modeled as verified in-memory tables.
//!
//! Each table is a sequence of rows in insertion order, mirroring a relational
//! schema: films keyed by their remote id, reference tables (genres,
//! countries) keyed by a natural key with a locally assigned surrogate id,
//! association and lifecycle tables referring back to a film id. The
//! well-formedness invariant [`Database::wf`] keeps natural keys unique and
//! surrogate ids equal to the row's position. Writing the tables to disk, and
//! reading them back, happens outside the library.

use vstd::prelude::*;

use crate::error::{Error, ErrorKind};
use crate::record::{FilmGenre, FilmCountry, FilmYear, GetFilmResponseData, GetFilmResponseStatus};

verus! {

/// A catalog entry row. The id is remote-assigned and never regenerated
/// locally; every other field is stored exactly as the remote sent it.
#[derive(Debug)]
pub struct FilmRow {
    pub id: u64,
    pub title: Option<String>,
    pub original_title: Option<String>,
    pub director: Option<String>,
    pub production_year: Option<u64>,
    pub duration: Option<u64>,
    pub description: Option<String>,
    pub age_restriction: Option<String>,
}

/// A thumbnail row; uniqueness of (film, resolution) is kept by the ingest
/// pipeline, not by the table itself.
#[derive(Debug)]
pub struct ThumbnailRow {
    pub film_id: u64,
    pub resolution: String,
    pub url: Option<String>,
}

/// A genre row: surrogate id plus natural key.
#[derive(Debug)]
pub struct GenreRow {
    /// Surrogate id: the row's position at insertion time.
    pub id: u64,
    /// Natural key, unique in the table.
    pub identifier: String,
    pub title: String,
}

/// A country row: surrogate id plus natural key.
#[derive(Debug)]
pub struct CountryRow {
    /// Surrogate id: the row's position at insertion time.
    pub id: u64,
    pub title: String,
    /// Natural key, unique in the table.
    pub code: String,
}

/// Association of a film with a genre, by surrogate id.
#[derive(Debug)]
pub struct FilmGenreRow {
    pub film_id: u64,
    pub genre_id: u64,
}

/// Association of a film with a country, by surrogate id.
#[derive(Debug)]
pub struct FilmCountryRow {
    pub film_id: u64,
    pub country_id: u64,
}

/// A competition a film took part in; append-only, no dedup.
#[derive(Debug)]
pub struct CompetitionRow {
    pub film_id: u64,
    pub name: String,
}

/// The year/product grouping row of a film.
#[derive(Debug)]
pub struct FilmYearRow {
    /// Remote-assigned id of the grouping.
    pub id: u64,
    pub film_id: u64,
    pub title: Option<String>,
    pub product_id: Option<u64>,
}

/// The status row of a film, holding the opaque media identifier needed to
/// build an acquisition URL.
#[derive(Debug)]
pub struct FilmStatusRow {
    pub film_id: u64,
    pub status: String,
    pub vimeo_id: Option<String>,
    pub greeting_vimeo_id: Option<String>,
}

/// The download lifecycle row of a film: at most one per film. A row with
/// `finished_at == None` means acquisition started but was never confirmed
/// complete, so the film still counts as missing.
#[derive(Debug)]
pub struct FilmDownload {
    pub film_id: u64,
    pub started_at: i64,
    pub finished_at: Option<i64>,
    pub path: Option<String>,
}

/// A film status as returned to the download lifecycle manager.
#[derive(Debug)]
pub struct FilmStatus {
    pub film_id: u64,
    pub status: Option<String>,
    pub vimeo_id: String,
    pub greeting_vimeo_id: Option<String>,
}

/// A film that lacks a completed download, with the fields needed to derive
/// its output path.
#[derive(Debug)]
pub struct MissingFilmDownload {
    pub id: u64,
    pub title: String,
    pub original_title: Option<String>,
    pub director: String,
    pub production_year: u64,
}

/// The relational store: one `Vec` per table, rows in insertion order.
#[derive(Debug)]
pub struct Database {
    pub films: Vec<FilmRow>,
    pub thumbnails: Vec<ThumbnailRow>,
    pub genres: Vec<GenreRow>,
    pub countries: Vec<CountryRow>,
    pub film_genres: Vec<FilmGenreRow>,
    pub film_countries: Vec<FilmCountryRow>,
    pub film_competitions: Vec<CompetitionRow>,
    pub film_years: Vec<FilmYearRow>,
    pub film_status: Vec<FilmStatusRow>,
    pub film_downloads: Vec<FilmDownload>,
}

/// There is a film row with the given id.
pub open spec fn spec_has_film(films: Seq<FilmRow>, id: u64) -> bool {
    exists|i: int| 0 <= i < films.len() && (#[trigger] films[i]).id == id
}

/// There is a genre row with the given natural key.
pub open spec fn spec_has_genre(genres: Seq<GenreRow>, identifier: Seq<char>) -> bool {
    exists|i: int| 0 <= i < genres.len() && (#[trigger] genres[i]).identifier@ == identifier
}

/// There is a country row with the given natural key.
pub open spec fn spec_has_country(countries: Seq<CountryRow>, code: Seq<char>) -> bool {
    exists|i: int| 0 <= i < countries.len() && (#[trigger] countries[i]).code@ == code
}

/// The surrogate id of the genre row with the given natural key
/// (meaningful only when the key is present and the table well-formed).
pub open spec fn spec_genre_id(genres: Seq<GenreRow>, identifier: Seq<char>) -> u64 {
    genres[choose|i: int| 0 <= i < genres.len() && (#[trigger] genres[i]).identifier@ == identifier].id
}

/// The surrogate id of the country row with the given natural key.
pub open spec fn spec_country_id(countries: Seq<CountryRow>, code: Seq<char>) -> u64 {
    countries[choose|i: int| 0 <= i < countries.len() && (#[trigger] countries[i]).code@ == code].id
}

/// No download row for the film has a finish mark: the film counts as
/// missing, whether acquisition never started or was interrupted.
pub open spec fn spec_pending(downloads: Seq<FilmDownload>, film_id: u64) -> bool {
    forall|i: int| 0 <= i < downloads.len() && (#[trigger] downloads[i]).film_id == film_id
        ==> downloads[i].finished_at is None
}

/// Film ids are unique.
pub open spec fn films_wf(films: Seq<FilmRow>) -> bool {
    forall|i: int, j: int| 0 <= i < j < films.len()
        ==> (#[trigger] films[i]).id != (#[trigger] films[j]).id
}

/// Natural keys are unique and each surrogate id is the row's position.
pub open spec fn genres_wf(genres: Seq<GenreRow>) -> bool {
    &&& forall|i: int| 0 <= i < genres.len() ==> (#[trigger] genres[i]).id == i
    &&& forall|i: int, j: int| 0 <= i < j < genres.len()
        ==> (#[trigger] genres[i]).identifier@ != (#[trigger] genres[j]).identifier@
}

/// Natural keys are unique and each surrogate id is the row's position.
pub open spec fn countries_wf(countries: Seq<CountryRow>) -> bool {
    &&& forall|i: int| 0 <= i < countries.len() ==> (#[trigger] countries[i]).id == i
    &&& forall|i: int, j: int| 0 <= i < j < countries.len()
        ==> (#[trigger] countries[i]).code@ != (#[trigger] countries[j]).code@
}

/// At most one download row per film (the write model is replace), and a
/// finish mark, when present, is never earlier than the start.
pub open spec fn downloads_wf(downloads: Seq<FilmDownload>) -> bool {
    &&& forall|i: int, j: int| 0 <= i < j < downloads.len()
        ==> (#[trigger] downloads[i]).film_id != (#[trigger] downloads[j]).film_id
    &&& forall|i: int| 0 <= i < downloads.len() && (#[trigger] downloads[i]).finished_at is Some
        ==> downloads[i].started_at <= downloads[i].finished_at->Some_0
}

impl Database {
    /// Well-formedness of the store.
    pub open spec fn wf(&self) -> bool {
        &&& films_wf(self.films@)
        &&& genres_wf(self.genres@)
        &&& countries_wf(self.countries@)
        &&& downloads_wf(self.film_downloads@)
    }

    /// All tables other than films, genres, countries and downloads are
    /// unconstrained; an empty store is trivially well-formed.
    pub fn new() -> (db: Database)
        ensures
            db.wf(),
            db.films@ =~= Seq::<FilmRow>::empty(),
            db.thumbnails@ =~= Seq::<ThumbnailRow>::empty(),
            db.genres@ =~= Seq::<GenreRow>::empty(),
            db.countries@ =~= Seq::<CountryRow>::empty(),
            db.film_genres@ =~= Seq::<FilmGenreRow>::empty(),
            db.film_countries@ =~= Seq::<FilmCountryRow>::empty(),
            db.film_competitions@ =~= Seq::<CompetitionRow>::empty(),
            db.film_years@ =~= Seq::<FilmYearRow>::empty(),
            db.film_status@ =~= Seq::<FilmStatusRow>::empty(),
            db.film_downloads@ =~= Seq::<FilmDownload>::empty(),
    {
        Database {
            films: Vec::new(),
            thumbnails: Vec::new(),
            genres: Vec::new(),
            countries: Vec::new(),
            film_genres: Vec::new(),
            film_countries: Vec::new(),
            film_competitions: Vec::new(),
            film_years: Vec::new(),
            film_status: Vec::new(),
            film_downloads: Vec::new(),
        }
    }

    /// Point lookup: is a film with this id present?
    pub fn film_exists(&self, id: u64) -> (r: bool)
        ensures
            r == spec_has_film(self.films@, id),
    {
        let mut i: usize = 0;
        while i < self.films.len()
            invariant
                0 <= i <= self.films@.len(),
                forall|j: int| 0 <= j < i ==> (#[trigger] self.films@[j]).id != id,
            decreases self.films@.len() - i,
        {
            if self.films[i].id == id {
                return true;
            }
            i = i + 1;
        }
        false
    }

    /// Point lookup of a genre row by natural key.
    fn find_genre(&self, identifier: &str) -> (r: Option<usize>)
        ensures
            match r {
                Some(i) => i < self.genres@.len() && self.genres@[i as int].identifier@
                    == identifier@,
                None => !spec_has_genre(self.genres@, identifier@),
            },
    {
        let mut i: usize = 0;
        while i < self.genres.len()
            invariant
                0 <= i <= self.genres@.len(),
                forall|j: int| 0 <= j < i ==> (#[trigger] self.genres@[j]).identifier@
                    != identifier@,
            decreases self.genres@.len() - i,
        {
            if string_eq_str(&self.genres[i].identifier, identifier) {
                return Some(i);
            }
            i = i + 1;
        }
        None
    }

    /// Point lookup of a country row by natural key.
    fn find_country(&self, code: &str) -> (r: Option<usize>)
        ensures
            match r {
                Some(i) => i < self.countries@.len() && self.countries@[i as int].code@ == code@,
                None => !spec_has_country(self.countries@, code@),
            },
    {
        let mut i: usize = 0;
        while i < self.countries.len()
            invariant
                0 <= i <= self.countries@.len(),
                forall|j: int| 0 <= j < i ==> (#[trigger] self.countries@[j]).code@ != code@,
            decreases self.countries@.len() - i,
        {
            if string_eq_str(&self.countries[i].code, code) {
                return Some(i);
            }
            i = i + 1;
        }
        None
    }

    /// Inserts a new film. Fails, leaving the store unchanged, when a film
    /// with this id is already present; the id is a primary key.
    pub fn create_film(&mut self, id: u64, film_data: &GetFilmResponseData) -> (r: Result<
        (),
        Error,
    >)
        requires
            old(self).wf(),
        ensures
            final(self).wf(),
            spec_has_film(old(self).films@, id) ==> r is Err && r->Err_0.kind is DatabaseError
                && *final(self) == *old(self),
            !spec_has_film(old(self).films@, id) ==> r is Ok && final(self).films@ == old(
                self,
            ).films@.push(
                FilmRow {
                    id,
                    title: film_data.title,
                    original_title: film_data.original_title,
                    director: film_data.director,
                    production_year: film_data.production_year,
                    duration: film_data.duration,
                    description: film_data.description,
                    age_restriction: film_data.age_restriction,
                },
            ) && unchanged_but_films(old(self), final(self)),
    {
        if self.film_exists(id) {
            return Err(Error { kind: ErrorKind::DatabaseError(duplicate_key_message()) });
        }
        let row = FilmRow {
            id,
            title: clone_opt_string(&film_data.title),
            original_title: clone_opt_string(&film_data.original_title),
            director: clone_opt_string(&film_data.director),
            production_year: film_data.production_year,
            duration: film_data.duration,
            description: clone_opt_string(&film_data.description),
            age_restriction: clone_opt_string(&film_data.age_restriction),
        };
        self.films.push(row);
        Ok(())
    }

    /// Creates a new genre. Fails, leaving the store unchanged, when the
    /// natural key is already present. The surrogate id of a new row is its
    /// position in the table.
    pub fn create_genre(&mut self, id: &String, title: &String) -> (r: Result<(), Error>)
        requires
            old(self).wf(),
        ensures
            final(self).wf(),
            spec_has_genre(old(self).genres@, id@) ==> r is Err && r->Err_0.kind is DatabaseError
                && *final(self) == *old(self),
            !spec_has_genre(old(self).genres@, id@) ==> r is Ok && final(self).genres@ == old(
                self,
            ).genres@.push(
                GenreRow { id: old(self).genres@.len() as u64, identifier: *id, title: *title },
            ) && unchanged_but_genres(old(self), final(self)),
    {
        if self.find_genre(id.as_str()).is_some() {
            return Err(Error { kind: ErrorKind::DatabaseError(duplicate_key_message()) });
        }
        let row = GenreRow {
            id: self.genres.len() as u64,
            identifier: id.clone(),
            title: title.clone(),
        };
        self.genres.push(row);
        Ok(())
    }

    /// Creates a new country. Fails, leaving the store unchanged, when the
    /// natural key is already present.
    pub fn create_country(&mut self, title: &String, code: &String) -> (r: Result<(), Error>)
        requires
            old(self).wf(),
        ensures
            final(self).wf(),
            spec_has_country(old(self).countries@, code@) ==> r is Err
                && r->Err_0.kind is DatabaseError && *final(self) == *old(self),
            !spec_has_country(old(self).countries@, code@) ==> r is Ok && final(self).countries@
                == old(self).countries@.push(
                CountryRow { id: old(self).countries@.len() as u64, title: *title, code: *code },
            ) && unchanged_but_countries(old(self), final(self)),
    {
        if self.find_country(code.as_str()).is_some() {
            return Err(Error { kind: ErrorKind::DatabaseError(duplicate_key_message()) });
        }
        let row = CountryRow {
            id: self.countries.len() as u64,
            title: title.clone(),
            code: code.clone(),
        };
        self.countries.push(row);
        Ok(())
    }

    /// Returns a genre's surrogate id, given its natural key. Fails when no
    /// such row exists (a point query that returns no rows).
    pub fn get_genre(&self, identifier: &str) -> (r: Result<Option<u64>, Error>)
        requires
            self.wf(),
        ensures
            spec_has_genre(self.genres@, identifier@) ==> r == Ok::<Option<u64>, Error>(
                Some(spec_genre_id(self.genres@, identifier@)),
            ),
            !spec_has_genre(self.genres@, identifier@) ==> r is Err
                && r->Err_0.kind is DatabaseError,
    {
        match self.find_genre(identifier) {
            Some(i) => {
                let id = self.genres[i].id;
                proof {
                    let j = choose|j: int| 0 <= j < self.genres@.len() && (#[trigger] self
                        .genres@[j]).identifier@ == identifier@;
                    assert(self.genres@[j].identifier@ == self.genres@[i as int].identifier@);
                    assert(j == i as int);
                }
                Ok(Some(id))
            },
            None => Err(Error { kind: ErrorKind::DatabaseError(no_rows_message()) }),
        }
    }

    /// Returns a country's surrogate id, given its natural key. Fails when no
    /// such row exists.
    pub fn get_country(&self, code: &str) -> (r: Result<Option<u64>, Error>)
        requires
            self.wf(),
        ensures
            spec_has_country(self.countries@, code@) ==> r == Ok::<Option<u64>, Error>(
                Some(spec_country_id(self.countries@, code@)),
            ),
            !spec_has_country(self.countries@, code@) ==> r is Err
                && r->Err_0.kind is DatabaseError,
    {
        match self.find_country(code) {
            Some(i) => {
                let id = self.countries[i].id;
                proof {
                    let j = choose|j: int| 0 <= j < self.countries@.len() && (#[trigger] self
                        .countries@[j]).code@ == code@;
                    assert(self.countries@[j].code@ == self.countries@[i as int].code@);
                    assert(j == i as int);
                }
                Ok(Some(id))
            },
            None => Err(Error { kind: ErrorKind::DatabaseError(no_rows_message()) }),
        }
    }

    /// Creates an association between a film and a genre.
    pub fn create_film_genre(&mut self, film_id: u64, genre_id: u64) -> (r: Result<(), Error>)
        requires
            old(self).wf(),
        ensures
            final(self).wf(),
            r is Ok,
            final(self).film_genres@ == old(self).film_genres@.push(
                FilmGenreRow { film_id, genre_id },
            ),
            unchanged_but_film_genres(old(self), final(self)),
    {
        self.film_genres.push(FilmGenreRow { film_id, genre_id });
        Ok(())
    }

    /// Creates an association between a film and a country.
    pub fn create_film_country(&mut self, film_id: u64, country_id: u64) -> (r: Result<(), Error>)
        requires
            old(self).wf(),
        ensures
            final(self).wf(),
            r is Ok,
            final(self).film_countries@ == old(self).film_countries@.push(
                FilmCountryRow { film_id, country_id },
            ),
            unchanged_but_film_countries(old(self), final(self)),
    {
        self.film_countries.push(FilmCountryRow { film_id, country_id });
        Ok(())
    }

    /// Creates a film competition row; append-only, never deduplicated.
    pub fn create_film_competition(&mut self, film_id: u64, competition: &String) -> (r: Result<
        (),
        Error,
    >)
        requires
            old(self).wf(),
        ensures
            final(self).wf(),
            r is Ok,
            final(self).film_competitions@ == old(self).film_competitions@.push(
                CompetitionRow { film_id, name: *competition },
            ),
            unchanged_but_film_competitions(old(self), final(self)),
    {
        self.film_competitions.push(CompetitionRow { film_id, name: competition.clone() });
        Ok(())
    }

    /// Creates the year/product grouping row of a film.
    pub fn create_film_year(&mut self, film_id: u64, year: &FilmYear) -> (r: Result<(), Error>)
        requires
            old(self).wf(),
        ensures
            final(self).wf(),
            r is Ok,
            final(self).film_years@ == old(self).film_years@.push(
                FilmYearRow {
                    id: year.id,
                    film_id,
                    title: year.title,
                    product_id: year.product_id,
                },
            ),
            unchanged_but_film_years(old(self), final(self)),
    {
        self.film_years.push(
            FilmYearRow {
                id: year.id,
                film_id,
                title: clone_opt_string(&year.title),
                product_id: year.product_id,
            },
        );
        Ok(())
    }

    /// Creates the status row of a film.
    pub fn create_film_status(&mut self, film_id: u64, status: &GetFilmResponseStatus) -> (r:
        Result<(), Error>)
        requires
            old(self).wf(),
        ensures
            final(self).wf(),
            r is Ok,
            final(self).film_status@ == old(self).film_status@.push(
                FilmStatusRow {
                    film_id,
                    status: status.status,
                    vimeo_id: status.vimeo_id,
                    greeting_vimeo_id: status.greeting_vimeo_id,
                },
            ),
            unchanged_but_film_status(old(self), final(self)),
    {
        self.film_status.push(
            FilmStatusRow {
                film_id,
                status: status.status.clone(),
                vimeo_id: clone_opt_string(&status.vimeo_id),
                greeting_vimeo_id: clone_opt_string(&status.greeting_vimeo_id),
            },
        );
        Ok(())
    }

    /// Inserts a new thumbnail row for a film.
    pub fn create_film_thumbnail(
        &mut self,
        film_id: u64,
        resolution: &String,
        url: Option<&String>,
    ) -> (r: Result<(), Error>)
        requires
            old(self).wf(),
        ensures
            final(self).wf(),
            r is Ok,
            final(self).thumbnails@ == old(self).thumbnails@.push(
                ThumbnailRow { film_id, resolution: *resolution, url: opt_string_of(url) },
            ),
            unchanged_but_thumbnails(old(self), final(self)),
    {
        let url_owned = match url {
            Some(u) => Some(u.clone()),
            None => None,
        };
        self.thumbnails.push(
            ThumbnailRow { film_id, resolution: resolution.clone(), url: url_owned },
        );
        Ok(())
    }

    /// Returns the stored thumbnails of a film as `(resolution, url)` pairs,
    /// in insertion order; rows without a URL are left out.
    pub fn get_film_thumbnails(&self, film_id: u64) -> (r: Result<Vec<(String, String)>, Error>)
        ensures
            r is Ok,
            r->Ok_0@ == film_thumbnails_spec(self.thumbnails@, film_id),
    {
        let mut res: Vec<(String, String)> = Vec::new();
        let mut i: usize = 0;
        while i < self.thumbnails.len()
            invariant
                0 <= i <= self.thumbnails@.len(),
                res@ == film_thumbnails_spec(self.thumbnails@.subrange(0, i as int), film_id),
            decreases self.thumbnails@.len() - i,
        {
            let t = &self.thumbnails[i];
            if t.film_id == film_id {
                match &t.url {
                    Some(u) => {
                        res.push((t.resolution.clone(), u.clone()));
                    },
                    None => {},
                }
            }
            proof {
                assert(self.thumbnails@.subrange(0, i + 1 as int).drop_last() =~= self
                    .thumbnails@.subrange(0, i as int));
            }
            i = i + 1;
        }
        proof {
            assert(self.thumbnails@.subrange(0, self.thumbnails@.len() as int) =~= self
                .thumbnails@);
        }
        Ok(res)
    }

    /// Returns the status of a film: the first status row that carries a
    /// media identifier. Fails when no such row exists, in which case the
    /// film is not yet acquirable.
    pub fn get_film_status(&self, film_id: u64) -> (r: Result<FilmStatus, Error>)
        ensures
            r is Ok <==> spec_has_status(self.film_status@, film_id),
            r matches Ok(st) ==> exists|i: int|
                spec_film_status_at(self.film_status@, film_id, i, st),
            r is Err ==> r->Err_0.kind is DatabaseError,
    {
        let mut i: usize = 0;
        while i < self.film_status.len()
            invariant
                0 <= i <= self.film_status@.len(),
                forall|j: int| 0 <= j < i ==> !status_match(#[trigger] self.film_status@[j], film_id),
            decreases self.film_status@.len() - i,
        {
            let row = &self.film_status[i];
            if row.film_id == film_id {
                match &row.vimeo_id {
                    Some(v) => {
                        let st = FilmStatus {
                            film_id: row.film_id,
                            status: Some(row.status.clone()),
                            vimeo_id: v.clone(),
                            greeting_vimeo_id: clone_opt_string(&row.greeting_vimeo_id),
                        };
                        proof {
                            assert(spec_film_status_at(self.film_status@, film_id, i as int, st));
                        }
                        return Ok(st);
                    },
                    None => {},
                }
            }
            i = i + 1;
        }
        Err(Error { kind: ErrorKind::DatabaseError(no_rows_message()) })
    }

    /// Inserts any of the `genres` whose natural key is not yet present, in
    /// batch order; a key already present is never re-inserted, even when its
    /// title differs from the stored title (first write wins). Duplicates
    /// within the batch are handled by the per-descriptor point lookup.
    pub fn sync_genres(&mut self, genres: &Vec<FilmGenre>) -> (r: Result<(), Error>)
        requires
            old(self).wf(),
        ensures
            final(self).wf(),
            r is Ok,
            final(self).genres@ == sync_genres_spec(old(self).genres@, genres@),
            unchanged_but_genres(old(self), final(self)),
    {
        let mut k: usize = 0;
        while k < genres.len()
            invariant
                old(self).wf(),
                self.wf(),
                0 <= k <= genres@.len(),
                self.genres@ == sync_genres_spec(old(self).genres@, genres@.subrange(0, k as int)),
                unchanged_but_genres(old(self), self),
            decreases genres@.len() - k,
        {
            let g = &genres[k];
            if self.find_genre(g.id.as_str()).is_none() {
                let _ = self.create_genre(&g.id, &g.title);
            }
            proof {
                assert(genres@.subrange(0, k + 1 as int).drop_last() =~= genres@.subrange(
                    0,
                    k as int,
                ));
                assert(genres@.subrange(0, k + 1 as int).last() == genres@[k as int]);
            }
            k = k + 1;
        }
        proof {
            assert(genres@.subrange(0, genres@.len() as int) =~= genres@);
        }
        Ok(())
    }

    /// Inserts any of the `countries` whose natural key is not yet present,
    /// in batch order; first write wins, as for genres.
    pub fn sync_countries(&mut self, countries: &Vec<FilmCountry>) -> (r: Result<(), Error>)
        requires
            old(self).wf(),
        ensures
            final(self).wf(),
            r is Ok,
            final(self).countries@ == sync_countries_spec(old(self).countries@, countries@),
            unchanged_but_countries(old(self), final(self)),
    {
        let mut k: usize = 0;
        while k < countries.len()
            invariant
                old(self).wf(),
                self.wf(),
                0 <= k <= countries@.len(),
                self.countries@ == sync_countries_spec(
                    old(self).countries@,
                    countries@.subrange(0, k as int),
                ),
                unchanged_but_countries(old(self), self),
            decreases countries@.len() - k,
        {
            let c = &countries[k];
            if self.find_country(c.code.as_str()).is_none() {
                let _ = self.create_country(&c.title, &c.code);
            }
            proof {
                assert(countries@.subrange(0, k + 1 as int).drop_last() =~= countries@.subrange(
                    0,
                    k as int,
                ));
                assert(countries@.subrange(0, k + 1 as int).last() == countries@[k as int]);
            }
            k = k + 1;
        }
        proof {
            assert(countries@.subrange(0, countries@.len() as int) =~= countries@);
        }
        Ok(())
    }

    /// True when no download row of the film carries a finish mark.
    pub fn download_pending(&self, film_id: u64) -> (r: bool)
        ensures
            r == spec_pending(self.film_downloads@, film_id),
    {
        let mut i: usize = 0;
        while i < self.film_downloads.len()
            invariant
                0 <= i <= self.film_downloads@.len(),
                forall|j: int| 0 <= j < i && (#[trigger] self.film_downloads@[j]).film_id
                    == film_id ==> self.film_downloads@[j].finished_at is None,
            decreases self.film_downloads@.len() - i,
        {
            let d = &self.film_downloads[i];
            if d.film_id == film_id && d.finished_at.is_some() {
                return false;
            }
            i = i + 1;
        }
        true
    }

    /// Returns the films that lack a completed download — no download row, or
    /// one without a finish mark — in film insertion order. Films whose
    /// title, director or production year is missing are left out: no output
    /// path could be derived for them.
    pub fn get_missing_downloads(&self) -> (r: Result<Vec<MissingFilmDownload>, Error>)
        ensures
            r is Ok,
            r->Ok_0@ == missing_downloads_spec(self.films@, self.film_downloads@),
    {
        let mut res: Vec<MissingFilmDownload> = Vec::new();
        let mut i: usize = 0;
        while i < self.films.len()
            invariant
                0 <= i <= self.films@.len(),
                res@ == missing_downloads_spec(
                    self.films@.subrange(0, i as int),
                    self.film_downloads@,
                ),
            decreases self.films@.len() - i,
        {
            let f = &self.films[i];
            match (&f.title, &f.director, &f.production_year) {
                (Some(title), Some(director), Some(production_year)) => {
                    if self.download_pending(f.id) {
                        res.push(
                            MissingFilmDownload {
                                id: f.id,
                                title: title.clone(),
                                original_title: clone_opt_string(&f.original_title),
                                director: director.clone(),
                                production_year: *production_year,
                            },
                        );
                    }
                },
                _ => {},
            }
            proof {
                assert(self.films@.subrange(0, i + 1 as int).drop_last() =~= self.films@.subrange(
                    0,
                    i as int,
                ));
            }
            i = i + 1;
        }
        proof {
            assert(self.films@.subrange(0, self.films@.len() as int) =~= self.films@);
        }
        Ok(res)
    }

    /// Writes the download lifecycle row of a film, replacing any row the
    /// film had: the row records `now` as the start of the attempt, carries a
    /// finish mark exactly when `completed` is set, and the given path.
    pub fn upsert_film_download(
        &mut self,
        film_id: u64,
        completed: bool,
        path: Option<&String>,
        now: i64,
    ) -> (r: Result<(), Error>)
        requires
            old(self).wf(),
        ensures
            final(self).wf(),
            r is Ok,
            final(self).film_downloads@ == upsert_download_spec(
                old(self).film_downloads@,
                film_id,
                completed,
                opt_string_of(path),
                now,
            ),
            unchanged_but_downloads(old(self), final(self)),
    {
        let mut rest: Vec<FilmDownload> = Vec::new();
        core::mem::swap(&mut self.film_downloads, &mut rest);
        let ghost orig = rest@;
        let mut k: usize = 0;
        while k < rest.len()
            invariant
                0 <= k <= rest@.len(),
                rest@ == orig,
                orig == old(self).film_downloads@,
                old(self).wf(),
                self.film_downloads@ == drop_download(orig.subrange(0, k as int), film_id),
                unchanged_but_downloads(old(self), self),
            decreases rest@.len() - k,
        {
            let d = &rest[k];
            if d.film_id != film_id {
                self.film_downloads.push(clone_download(d));
            }
            proof {
                assert(orig.subrange(0, k + 1 as int).drop_last() =~= orig.subrange(0, k as int));
            }
            k = k + 1;
        }
        proof {
            assert(orig.subrange(0, orig.len() as int) =~= orig);
            lemma_drop_download(orig, film_id);
            assert(downloads_wf(drop_download(orig, film_id)));
        }
        let path_owned = match path {
            Some(p) => Some(p.clone()),
            None => None,
        };
        let finished_at = if completed {
            Some(now)
        } else {
            None
        };
        self.film_downloads.push(
            FilmDownload { film_id, started_at: now, finished_at, path: path_owned },
        );
        Ok(())
    }
}

/// Clones a download row, preserving the value exactly.
fn clone_download(d: &FilmDownload) -> (r: FilmDownload)
    ensures
        r == *d,
{
    FilmDownload {
        film_id: d.film_id,
        started_at: d.started_at,
        finished_at: d.finished_at,
        path: clone_opt_string(&d.path),
    }
}

/// A film row carries everything the download lifecycle needs: a title, a
/// director and a production year.
pub open spec fn spec_downloadable(f: FilmRow) -> bool {
    f.title is Some && f.director is Some && f.production_year is Some
}

/// The pending download list: one entry per film, in film insertion order,
/// for each film with complete naming fields and no finished download row.
pub open spec fn missing_downloads_spec(
    films: Seq<FilmRow>,
    downloads: Seq<FilmDownload>,
) -> Seq<MissingFilmDownload>
    decreases films.len(),
{
    if films.len() == 0 {
        Seq::empty()
    } else {
        let prev = missing_downloads_spec(films.drop_last(), downloads);
        let f = films.last();
        if spec_downloadable(f) && spec_pending(downloads, f.id) {
            prev.push(
                MissingFilmDownload {
                    id: f.id,
                    title: f.title->Some_0,
                    original_title: f.original_title,
                    director: f.director->Some_0,
                    production_year: f.production_year->Some_0,
                },
            )
        } else {
            prev
        }
    }
}

/// The download table without the rows of the given film, order preserved.
pub open spec fn drop_download(downloads: Seq<FilmDownload>, film_id: u64) -> Seq<FilmDownload>
    decreases downloads.len(),
{
    if downloads.len() == 0 {
        downloads
    } else {
        let prev = drop_download(downloads.drop_last(), film_id);
        if downloads.last().film_id == film_id {
            prev
        } else {
            prev.push(downloads.last())
        }
    }
}

/// The download table after a replacing write for one film: any row of the
/// film is gone, and one new row stands at the end.
pub open spec fn upsert_download_spec(
    downloads: Seq<FilmDownload>,
    film_id: u64,
    completed: bool,
    path: Option<String>,
    now: i64,
) -> Seq<FilmDownload> {
    drop_download(downloads, film_id).push(
        FilmDownload {
            film_id,
            started_at: now,
            finished_at: if completed {
                Some(now)
            } else {
                None
            },
            path,
        },
    )
}

/// After dropping a film's rows, no row of that film remains, no other row is
/// touched, and pairwise distinctness of film ids is preserved.
pub proof fn lemma_drop_download(downloads: Seq<FilmDownload>, film_id: u64)
    ensures
        forall|k: int| 0 <= k < drop_download(downloads, film_id).len() ==> (#[trigger]
        drop_download(downloads, film_id)[k]).film_id != film_id,
        forall|k: int| #![trigger drop_download(downloads, film_id)[k]]
            0 <= k < drop_download(downloads, film_id).len() ==> exists|j: int|
                0 <= j < downloads.len() && downloads[j] == drop_download(downloads, film_id)[k],
        drop_download(downloads, film_id).len() <= downloads.len(),
        downloads_wf(downloads) ==> downloads_wf(drop_download(downloads, film_id)),
    decreases downloads.len(),
{
    if downloads.len() > 0 {
        let shorter = downloads.drop_last();
        let prev = drop_download(shorter, film_id);
        lemma_drop_download(shorter, film_id);
        assert forall|k: int| #![trigger prev[k]] 0 <= k < prev.len() implies exists|j: int|
            0 <= j < downloads.len() && downloads[j] == prev[k] by {
            let j = choose|j: int| 0 <= j < shorter.len() && shorter[j] == prev[k];
            assert(downloads[j] == prev[k]);
        }
        if downloads_wf(downloads) {
            assert(downloads_wf(shorter)) by {
                assert(forall|i: int, j: int| 0 <= i < j < shorter.len() ==> (#[trigger]
                shorter[i]).film_id != (#[trigger] shorter[j]).film_id);
            }
            let result = drop_download(downloads, film_id);
            if downloads.last().film_id != film_id {
                assert forall|i: int, j: int| 0 <= i < j < result.len() implies (#[trigger]
                result[i]).film_id != (#[trigger] result[j]).film_id by {
                    if j < prev.len() {
                        assert(prev[i].film_id != prev[j].film_id);
                    } else {
                        let m = choose|m: int| 0 <= m < shorter.len() && shorter[m] == prev[i];
                        assert(downloads[m] == result[i]);
                        assert(downloads[m].film_id != downloads[downloads.len() - 1].film_id);
                    }
                }
                assert forall|i: int|
                    0 <= i < result.len() && (#[trigger] result[i]).finished_at is Some
                    implies result[i].started_at <= result[i].finished_at->Some_0 by {
                    if i < prev.len() {
                        assert(prev[i].started_at <= prev[i].finished_at->Some_0);
                    } else {
                        assert(result[i] == downloads[downloads.len() - 1]);
                    }
                }
            }
        }
    }
}

/// A status row that can serve the download lifecycle: it belongs to the film
/// and carries a media identifier.
pub open spec fn status_match(row: FilmStatusRow, film_id: u64) -> bool {
    row.film_id == film_id && row.vimeo_id is Some
}

/// Some status row of the film carries a media identifier.
pub open spec fn spec_has_status(statuses: Seq<FilmStatusRow>, film_id: u64) -> bool {
    exists|i: int| 0 <= i < statuses.len() && status_match(#[trigger] statuses[i], film_id)
}

/// `st` is the status read from the first matching row, at position `i`.
pub open spec fn spec_film_status_at(
    statuses: Seq<FilmStatusRow>,
    film_id: u64,
    i: int,
    st: FilmStatus,
) -> bool {
    &&& 0 <= i < statuses.len()
    &&& status_match(statuses[i], film_id)
    &&& forall|j: int| 0 <= j < i ==> !status_match(#[trigger] statuses[j], film_id)
    &&& st.film_id == statuses[i].film_id
    &&& st.status == Some(statuses[i].status)
    &&& st.vimeo_id == statuses[i].vimeo_id->Some_0
    &&& st.greeting_vimeo_id == statuses[i].greeting_vimeo_id
}

/// The `(resolution, url)` pairs of the film's thumbnail rows that carry a
/// URL, in insertion order.
pub open spec fn film_thumbnails_spec(thumbs: Seq<ThumbnailRow>, film_id: u64) -> Seq<
    (String, String),
>
    decreases thumbs.len(),
{
    if thumbs.len() == 0 {
        Seq::empty()
    } else {
        let prev = film_thumbnails_spec(thumbs.drop_last(), film_id);
        let t = thumbs.last();
        if t.film_id == film_id && t.url is Some {
            prev.push((t.resolution, t.url->Some_0))
        } else {
            prev
        }
    }
}

/// The genre table after deduplicating insertion of a batch, in batch order:
/// a descriptor whose key is present (in the table or earlier in the batch)
/// adds nothing; any other adds one row whose surrogate id is its position.
pub open spec fn sync_genres_spec(genres: Seq<GenreRow>, batch: Seq<FilmGenre>) -> Seq<GenreRow>
    decreases batch.len(),
{
    if batch.len() == 0 {
        genres
    } else {
        let prev = sync_genres_spec(genres, batch.drop_last());
        let g = batch.last();
        if spec_has_genre(prev, g.id@) {
            prev
        } else {
            prev.push(GenreRow { id: prev.len() as u64, identifier: g.id, title: g.title })
        }
    }
}

/// The country table after deduplicating insertion of a batch, in batch
/// order; the mirror of [`sync_genres_spec`].
pub open spec fn sync_countries_spec(
    countries: Seq<CountryRow>,
    batch: Seq<FilmCountry>,
) -> Seq<CountryRow>
    decreases batch.len(),
{
    if batch.len() == 0 {
        countries
    } else {
        let prev = sync_countries_spec(countries, batch.drop_last());
        let c = batch.last();
        if spec_has_country(prev, c.code@) {
            prev
        } else {
            prev.push(CountryRow { id: prev.len() as u64, title: c.title, code: c.code })
        }
    }
}

/// The owned value behind an optional borrowed string.
pub open spec fn opt_string_of(o: Option<&String>) -> Option<String> {
    match o {
        Some(s) => Some(*s),
        None => None,
    }
}

/// All tables but films are as before.
pub open spec fn unchanged_but_films(a: &Database, b: &Database) -> bool {
    &&& a.thumbnails == b.thumbnails
    &&& a.genres == b.genres
    &&& a.countries == b.countries
    &&& a.film_genres == b.film_genres
    &&& a.film_countries == b.film_countries
    &&& a.film_competitions == b.film_competitions
    &&& a.film_years == b.film_years
    &&& a.film_status == b.film_status
    &&& a.film_downloads == b.film_downloads
}

/// All tables but genres are as before.
pub open spec fn unchanged_but_genres(a: &Database, b: &Database) -> bool {
    &&& a.films == b.films
    &&& a.thumbnails == b.thumbnails
    &&& a.countries == b.countries
    &&& a.film_genres == b.film_genres
    &&& a.film_countries == b.film_countries
    &&& a.film_competitions == b.film_competitions
    &&& a.film_years == b.film_years
    &&& a.film_status == b.film_status
    &&& a.film_downloads == b.film_downloads
}

/// All tables but countries are as before.
pub open spec fn unchanged_but_countries(a: &Database, b: &Database) -> bool {
    &&& a.films == b.films
    &&& a.thumbnails == b.thumbnails
    &&& a.genres == b.genres
    &&& a.film_genres == b.film_genres
    &&& a.film_countries == b.film_countries
    &&& a.film_competitions == b.film_competitions
    &&& a.film_years == b.film_years
    &&& a.film_status == b.film_status
    &&& a.film_downloads == b.film_downloads
}

/// All tables but film/genre associations are as before.
pub open spec fn unchanged_but_film_genres(a: &Database, b: &Database) -> bool {
    &&& a.films == b.films
    &&& a.thumbnails == b.thumbnails
    &&& a.genres == b.genres
    &&& a.countries == b.countries
    &&& a.film_countries == b.film_countries
    &&& a.film_competitions == b.film_competitions
    &&& a.film_years == b.film_years
    &&& a.film_status == b.film_status
    &&& a.film_downloads == b.film_downloads
}

/// All tables but film/country associations are as before.
pub open spec fn unchanged_but_film_countries(a: &Database, b: &Database) -> bool {
    &&& a.films == b.films
    &&& a.thumbnails == b.thumbnails
    &&& a.genres == b.genres
    &&& a.countries == b.countries
    &&& a.film_genres == b.film_genres
    &&& a.film_competitions == b.film_competitions
    &&& a.film_years == b.film_years
    &&& a.film_status == b.film_status
    &&& a.film_downloads == b.film_downloads
}

/// All tables but competitions are as before.
pub open spec fn unchanged_but_film_competitions(a: &Database, b: &Database) -> bool {
    &&& a.films == b.films
    &&& a.thumbnails == b.thumbnails
    &&& a.genres == b.genres
    &&& a.countries == b.countries
    &&& a.film_genres == b.film_genres
    &&& a.film_countries == b.film_countries
    &&& a.film_years == b.film_years
    &&& a.film_status == b.film_status
    &&& a.film_downloads == b.film_downloads
}

/// All tables but film years are as before.
pub open spec fn unchanged_but_film_years(a: &Database, b: &Database) -> bool {
    &&& a.films == b.films
    &&& a.thumbnails == b.thumbnails
    &&& a.genres == b.genres
    &&& a.countries == b.countries
    &&& a.film_genres == b.film_genres
    &&& a.film_countries == b.film_countries
    &&& a.film_competitions == b.film_competitions
    &&& a.film_status == b.film_status
    &&& a.film_downloads == b.film_downloads
}

/// All tables but film statuses are as before.
pub open spec fn unchanged_but_film_status(a: &Database, b: &Database) -> bool {
    &&& a.films == b.films
    &&& a.thumbnails == b.thumbnails
    &&& a.genres == b.genres
    &&& a.countries == b.countries
    &&& a.film_genres == b.film_genres
    &&& a.film_countries == b.film_countries
    &&& a.film_competitions == b.film_competitions
    &&& a.film_years == b.film_years
    &&& a.film_downloads == b.film_downloads
}

/// All tables but thumbnails are as before.
pub open spec fn unchanged_but_thumbnails(a: &Database, b: &Database) -> bool {
    &&& a.films == b.films
    &&& a.genres == b.genres
    &&& a.countries == b.countries
    &&& a.film_genres == b.film_genres
    &&& a.film_countries == b.film_countries
    &&& a.film_competitions == b.film_competitions
    &&& a.film_years == b.film_years
    &&& a.film_status == b.film_status
    &&& a.film_downloads == b.film_downloads
}

/// All tables but downloads are as before.
pub open spec fn unchanged_but_downloads(a: &Database, b: &Database) -> bool {
    &&& a.films == b.films
    &&& a.thumbnails == b.thumbnails
    &&& a.genres == b.genres
    &&& a.countries == b.countries
    &&& a.film_genres == b.film_genres
    &&& a.film_countries == b.film_countries
    &&& a.film_competitions == b.film_competitions
    &&& a.film_years == b.film_years
    &&& a.film_status == b.film_status
}

/// Compares a stored string against a borrowed key.
pub fn string_eq_str(a: &String, b: &str) -> (r: bool)
    ensures
        r == (a@ == b@),
{
    let owned = b.to_owned();
    *a == owned
}

/// Clones an optional string, preserving the value exactly.
pub fn clone_opt_string(o: &Option<String>) -> (r: Option<String>)
    ensures
        r == *o,
{
    match o {
        Some(s) => Some(s.clone()),
        None => None,
    }
}

/// The message stored statements report on a violated key.
fn duplicate_key_message() -> (r: String)
    ensures
        r@ == "UNIQUE constraint failed"@,
{
    "UNIQUE constraint failed".to_owned()
}

/// The message a point query reports when it finds no row.
fn no_rows_message() -> (r: String)
    ensures
        r@ == "query returned no rows"@,
{
    "query returned no rows".to_owned()
}

} // verus!
