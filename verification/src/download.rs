//! Download lifecycle: selecting what to acquire, deriving the acquisition
//! plan, and recording start and finish state around the external tool.
//!
//! The output path of an entry is a pure function of its director, title and
//! production year, so re-attempts target the same file across runs. The
//! checkpoint row is written before the tool is invoked and replaced with a
//! finished one only on a successful exit; a failed or interrupted attempt
//! leaves the row unfinished and the entry still counts as missing.

use vstd::prelude::*;
use vstd::string::*;

use crate::clock::now_timestamp;
use crate::database::{
    Database, MissingFilmDownload, lemma_drop_download, spec_film_status_at, spec_has_status,
    spec_pending, status_match, upsert_download_spec, unchanged_but_downloads,
};
use crate::error::Error;

verus! {

/// The decimal digit character for one digit value.
pub open spec fn spec_digit(d: nat) -> char {
    if d == 0 {
        '0'
    } else if d == 1 {
        '1'
    } else if d == 2 {
        '2'
    } else if d == 3 {
        '3'
    } else if d == 4 {
        '4'
    } else if d == 5 {
        '5'
    } else if d == 6 {
        '6'
    } else if d == 7 {
        '7'
    } else if d == 8 {
        '8'
    } else {
        '9'
    }
}

/// The decimal digit characters of a number, most significant first.
pub open spec fn spec_digits(n: nat) -> Seq<char>
    decreases n,
{
    if n < 10 {
        seq![spec_digit(n)]
    } else {
        spec_digits(n / 10).push(spec_digit(n % 10))
    }
}

/// The derived file name of an entry: `director - title (year).mp4`.
pub open spec fn spec_filename(director: Seq<char>, title: Seq<char>, year: u64) -> Seq<char> {
    director + " - "@ + title + " ("@ + spec_digits(year as nat) + ").mp4"@
}

/// The derived output path of an entry: `films/<year>/<filename>`, stable
/// across runs for the same entry.
pub open spec fn spec_output_path(director: Seq<char>, title: Seq<char>, year: u64) -> Seq<char> {
    "films/"@ + spec_digits(year as nat) + "/"@ + spec_filename(director, title, year)
}

/// The source URL built from the opaque media identifier.
pub open spec fn spec_vimeo_url(vimeo_id: Seq<char>) -> Seq<char> {
    "https://player.vimeo.com/video/"@ + vimeo_id + "?app_id=122963"@
}

/// One decimal digit as a string slice.
fn digit_str(d: u64) -> (r: &'static str)
    requires
        d < 10,
    ensures
        r@ =~= seq![spec_digit(d as nat)],
{
    proof {
        reveal_strlit("0");
        reveal_strlit("1");
        reveal_strlit("2");
        reveal_strlit("3");
        reveal_strlit("4");
        reveal_strlit("5");
        reveal_strlit("6");
        reveal_strlit("7");
        reveal_strlit("8");
        reveal_strlit("9");
    }
    match d {
        0 => "0",
        1 => "1",
        2 => "2",
        3 => "3",
        4 => "4",
        5 => "5",
        6 => "6",
        7 => "7",
        8 => "8",
        _ => "9",
    }
}

/// Renders a number in decimal.
pub fn u64_to_string(n: u64) -> (r: String)
    ensures
        r@ == spec_digits(n as nat),
    decreases n,
{
    if n < 10 {
        digit_str(n).to_owned()
    } else {
        let mut s = u64_to_string(n / 10);
        s.append(digit_str(n % 10));
        proof {
            assert(s@ =~= spec_digits((n / 10) as nat).push(spec_digit((n % 10) as nat)));
        }
        s
    }
}

/// Derives the file name of an entry: `director - title (year).mp4`.
pub fn download_filename(director: &String, title: &String, production_year: u64) -> (r: String)
    ensures
        r@ == spec_filename(director@, title@, production_year),
{
    let mut s = String::new();
    s.append(director.as_str());
    s.append(" - ");
    s.append(title.as_str());
    s.append(" (");
    let year = u64_to_string(production_year);
    s.append(year.as_str());
    s.append(").mp4");
    proof {
        assert(s@ =~= spec_filename(director@, title@, production_year));
    }
    s
}

/// Derives the output path of an entry: `films/<year>/<filename>`.
pub fn download_output_path(director: &String, title: &String, production_year: u64) -> (r: String)
    ensures
        r@ == spec_output_path(director@, title@, production_year),
{
    let mut s = String::new();
    s.append("films/");
    let year = u64_to_string(production_year);
    s.append(year.as_str());
    s.append("/");
    let filename = download_filename(director, title, production_year);
    s.append(filename.as_str());
    proof {
        assert(s@ =~= spec_output_path(director@, title@, production_year));
    }
    s
}

/// Builds the source URL from the opaque media identifier.
pub fn vimeo_url(vimeo_id: &String) -> (r: String)
    ensures
        r@ == spec_vimeo_url(vimeo_id@),
{
    let mut s = String::new();
    s.append("https://player.vimeo.com/video/");
    s.append(vimeo_id.as_str());
    s.append("?app_id=122963");
    proof {
        assert(s@ =~= spec_vimeo_url(vimeo_id@));
    }
    s
}

/// The fixed argument template of the external acquisition tool: referer
/// header, best-video+best-audio selection, container merge format, output
/// path, source URL.
pub fn youtube_dl_args(output_path: &String, url: &String) -> (r: Vec<String>)
    ensures
        r@.len() == 9,
        r@[0]@ == "--referer"@,
        r@[1]@ == "https://offstream.dk/"@,
        r@[2]@ == "-f"@,
        r@[3]@ == "bestvideo+bestaudio"@,
        r@[4]@ == "--merge-output-format"@,
        r@[5]@ == "mp4"@,
        r@[6]@ == "-o"@,
        r@[7] == *output_path,
        r@[8] == *url,
{
    let mut v: Vec<String> = Vec::new();
    v.push("--referer".to_owned());
    v.push("https://offstream.dk/".to_owned());
    v.push("-f".to_owned());
    v.push("bestvideo+bestaudio".to_owned());
    v.push("--merge-output-format".to_owned());
    v.push("mp4".to_owned());
    v.push("-o".to_owned());
    v.push(output_path.clone());
    v.push(url.clone());
    v
}

/// Everything needed to invoke the external acquisition tool for one entry.
#[derive(Debug)]
pub struct DownloadPlan {
    pub film_id: u64,
    pub output_path: String,
    pub url: String,
    pub args: Vec<String>,
}

/// The row at `i` is the first status row serving the film.
pub open spec fn first_status_index(
    statuses: Seq<crate::database::FilmStatusRow>,
    film_id: u64,
    i: int,
) -> bool {
    &&& 0 <= i < statuses.len()
    &&& status_match(statuses[i], film_id)
    &&& forall|j: int| 0 <= j < i ==> !status_match(#[trigger] statuses[j], film_id)
}

/// Derives the acquisition plan of one pending entry: the stable output path
/// from its naming fields, and the source URL and tool arguments from its
/// stored media identifier. Fails exactly when the film has no status row
/// carrying a media identifier — the entry is not yet acquirable and is
/// skipped.
pub fn prepare_download(db: &Database, film: &MissingFilmDownload) -> (r: Result<
    DownloadPlan,
    Error,
>)
    ensures
        r is Ok <==> spec_has_status(db.film_status@, film.id),
        r matches Ok(plan) ==> {
            &&& plan.film_id == film.id
            &&& plan.output_path@ == spec_output_path(
                film.director@,
                film.title@,
                film.production_year,
            )
            &&& exists|i: int|
                #[trigger] first_status_index(db.film_status@, film.id, i) && plan.url@
                    == spec_vimeo_url(db.film_status@[i].vimeo_id->Some_0@)
            &&& plan.args@.len() == 9
            &&& plan.args@[0]@ == "--referer"@
            &&& plan.args@[1]@ == "https://offstream.dk/"@
            &&& plan.args@[2]@ == "-f"@
            &&& plan.args@[3]@ == "bestvideo+bestaudio"@
            &&& plan.args@[4]@ == "--merge-output-format"@
            &&& plan.args@[5]@ == "mp4"@
            &&& plan.args@[6]@ == "-o"@
            &&& plan.args@[7] == plan.output_path
            &&& plan.args@[8] == plan.url
        },
        r is Err ==> r->Err_0.kind is DatabaseError,
{
    let film_status = match db.get_film_status(film.id) {
        Ok(st) => st,
        Err(e) => {
            return Err(e);
        },
    };
    let url = vimeo_url(&film_status.vimeo_id);
    let output_path = download_output_path(&film.director, &film.title, film.production_year);
    let args = youtube_dl_args(&output_path, &url);
    proof {
        let i = choose|i: int| spec_film_status_at(db.film_status@, film.id, i, film_status);
        assert(first_status_index(db.film_status@, film.id, i));
        assert(url@ == spec_vimeo_url(db.film_status@[i].vimeo_id->Some_0@));
    }
    Ok(DownloadPlan { film_id: film.id, output_path, url, args })
}

/// Writes the resumability checkpoint before the tool is invoked: the entry's
/// download row is replaced by one with the derived path, the current time as
/// start and no finish mark — so a crash during acquisition leaves the entry
/// pending, and a restart sees it as still missing.
pub fn record_download_started(db: &mut Database, film_id: u64, path: &String)
    requires
        old(db).wf(),
    ensures
        final(db).wf(),
        unchanged_but_downloads(old(db), final(db)),
        exists|t: i64|
            final(db).film_downloads@ == #[trigger] upsert_download_spec(
                old(db).film_downloads@,
                film_id,
                false,
                Some(*path),
                t,
            ),
        final(db).film_downloads@.len() >= 1,
        final(db).film_downloads@.last().film_id == film_id,
        final(db).film_downloads@.last().finished_at is None,
        final(db).film_downloads@.last().path == Some(*path),
        spec_pending(final(db).film_downloads@, film_id),
{
    let now = now_timestamp();
    let _ = db.upsert_film_download(film_id, false, Some(path), now);
    proof {
        lemma_drop_download(old(db).film_downloads@, film_id);
        let rows = db.film_downloads@;
        assert forall|i: int|
            0 <= i < rows.len() && (#[trigger] rows[i]).film_id == film_id implies rows[i]
            .finished_at is None by {
            if i < rows.len() - 1 {
                assert(rows[i] == crate::database::drop_download(
                    old(db).film_downloads@,
                    film_id,
                )[i]);
            }
        }
    }
}

/// Records the outcome of one invocation: on a successful exit the entry's
/// row is replaced by a finished one, stamped with the current time; on any
/// failure the store is left as it is, so the checkpoint written before the
/// invocation stands and a future run re-attempts the entry.
pub fn record_download_result(db: &mut Database, film_id: u64, path: &String, exit_ok: bool)
    requires
        old(db).wf(),
    ensures
        final(db).wf(),
        exit_ok ==> unchanged_but_downloads(old(db), final(db)) && exists|t: i64|
            final(db).film_downloads@ == #[trigger] upsert_download_spec(
                old(db).film_downloads@,
                film_id,
                true,
                Some(*path),
                t,
            ),
        exit_ok ==> final(db).film_downloads@.len() >= 1
            && final(db).film_downloads@.last().film_id == film_id
            && final(db).film_downloads@.last().finished_at is Some
            && final(db).film_downloads@.last().path == Some(*path),
        !exit_ok ==> *final(db) == *old(db),
{
    if exit_ok {
        let now = now_timestamp();
        let _ = db.upsert_film_download(film_id, true, Some(path), now);
    }
}

} // verus!
