//! Song metadata: headers, arrangements and the assets they refer to, and
//! how a song definition read from a songfile becomes a song.

use vstd::prelude::*;
use vstd::string::StringExecFns;

verus! {

/// Names an asset (an arrangement, cover art, an audio bank) by the song
/// that holds it and its path within that song.
#[derive(Debug, PartialEq, Eq, PartialOrd, Ord)]
pub struct AssetId {
    pub id: String,
    pub parent_id: String,
}

impl AssetId {
    /// The asset at `asset_path` within the song at `song_path`.
    pub fn from_paths(song_path: &str, asset_path: &str) -> (r: AssetId)
        ensures
            r.parent_id@ == song_path@,
            r.id@ == asset_path@,
    {
        AssetId { parent_id: song_path.to_owned(), id: asset_path.to_owned() }
    }
}

/// How a song is stored.
#[derive(Clone, Copy, Debug, PartialEq, Eq, Structural)]
pub enum SongType {
    /// A directory holding a songfile and its assets.
    Unpacked,
    Packed,
    PSARC,
}

/// The instrument an arrangement is written for.
#[derive(Clone, Copy, Debug, PartialEq, Eq, Hash, Default, Structural)]
pub enum Instrument {
    Vocal,
    ElectricBass,
    AcousticGuitar,
    #[default]
    ElectricGuitar,
}

/// How an instrument is tuned.
#[derive(Debug, PartialEq, Eq, Hash)]
pub enum Tuning {
    /// E2 A2 D3 G3 B3 E4.
    Standard,
    /// For each string, its offset from standard tuning in eighths of a
    /// step: `[-8, 0, 0, 0, 0, 0]` is drop D.
    Custom(Vec<i8>),
}

/// Whether two tunings are the same.
pub open spec fn same_tuning(a: Option<Tuning>, b: Option<Tuning>) -> bool {
    match (a, b) {
        (None, None) => true,
        (Some(Tuning::Standard), Some(Tuning::Standard)) => true,
        (Some(Tuning::Custom(x)), Some(Tuning::Custom(y))) => x@ == y@,
        _ => false,
    }
}

/// A copy of `tuning`.
pub fn copy_tuning(tuning: &Option<Tuning>) -> (r: Option<Tuning>)
    ensures
        same_tuning(r, *tuning),
{
    match tuning {
        None => None,
        Some(Tuning::Standard) => Some(Tuning::Standard),
        Some(Tuning::Custom(offsets)) => Some(Tuning::Custom(offsets.clone())),
    }
}

/// One playable part of a song.
#[derive(Debug, PartialEq, Eq)]
pub struct Arrangement {
    pub id: String,
    /// Where the arrangement's notes are stored.
    pub asset_id: AssetId,
    pub name: String,
    pub instrument: Instrument,
    pub tuning: Option<Tuning>,
}

/// What describes a song, as listed in a library.
#[derive(Debug, PartialEq, Eq)]
pub struct SongHeader {
    pub title: String,
    pub title_sort: String,
    pub album: String,
    pub album_sort: String,
    pub artist: String,
    pub artist_sort: String,
    pub year: u16,
    pub version: u16,
    pub length_sec: u16,
    pub arrangements: Vec<Arrangement>,
}

/// A song with its header and the assets it refers to.
#[derive(Debug, PartialEq, Eq)]
pub struct Song {
    pub header: SongHeader,
    pub song_type: SongType,
    pub cover_art: Option<AssetId>,
    /// The audio of the full song.
    pub song: Option<AssetId>,
    /// A short excerpt of the audio.
    pub preview: Option<AssetId>,
}

impl Song {
    /// Adds an arrangement after those the song already has.
    pub fn add_arrangement(&mut self, other: Arrangement)
        ensures
            final(self).header.arrangements@ == old(self).header.arrangements@.push(other),
            final(self).header.title == old(self).header.title,
            final(self).song_type == old(self).song_type,
    {
        self.header.arrangements.push(other);
    }
}

/// An arrangement as a songfile describes it.
#[derive(Debug, PartialEq, Eq, Hash, Default)]
pub struct ArrangementDef {
    pub id: String,
    pub name: String,
    pub instrument: Instrument,
    pub tuning: Option<Tuning>,
}

/// A song as a songfile describes it.
#[derive(Debug, PartialEq, Eq, Hash, Default)]
pub struct SongDef {
    pub title: String,
    pub title_sort: String,
    pub album: String,
    pub album_sort: String,
    pub artist: String,
    pub artist_sort: String,
    pub year: u16,
    pub version: u16,
    pub length_sec: u16,
    pub cover_art_path: Option<String>,
    pub song_path: Option<String>,
    pub song_preview_path: Option<String>,
    pub arrangements: Vec<ArrangementDef>,
}

/// The path within a song of the asset that holds arrangement `id`.
pub open spec fn arrangement_asset_path(id: Seq<char>) -> Seq<char> {
    "arrangement_"@ + id + ".yaml"@
}

/// Whether `a` is the arrangement that `def` describes, in the song at
/// `song_path`.
pub open spec fn arrangement_of(a: Arrangement, song_path: Seq<char>, def: ArrangementDef) -> bool {
    &&& a.id@ == def.id@
    &&& a.name@ == def.name@
    &&& a.instrument == def.instrument
    &&& same_tuning(a.tuning, def.tuning)
    &&& a.asset_id.parent_id@ == song_path
    &&& a.asset_id.id@ == arrangement_asset_path(def.id@)
}

/// The arrangement that `arrangement_def` describes, in the song at
/// `song_path`; its notes are in the song's `arrangement_<id>.yaml`.
pub fn load_arrangement(song_path: &str, arrangement_def: &ArrangementDef) -> (r: Arrangement)
    ensures
        arrangement_of(r, song_path@, *arrangement_def),
{
    let mut asset_path = "arrangement_".to_owned();
    asset_path.append(arrangement_def.id.as_str());
    asset_path.append(".yaml");
    Arrangement {
        id: arrangement_def.id.clone(),
        asset_id: AssetId::from_paths(song_path, asset_path.as_str()),
        name: arrangement_def.name.clone(),
        instrument: arrangement_def.instrument,
        tuning: copy_tuning(&arrangement_def.tuning),
    }
}

/// Whether `h` holds the descriptive fields of `def` and `arrangements`.
pub open spec fn header_of(h: SongHeader, def: SongDef, arrangements: Seq<Arrangement>) -> bool {
    &&& h.title@ == def.title@
    &&& h.title_sort@ == def.title_sort@
    &&& h.album@ == def.album@
    &&& h.album_sort@ == def.album_sort@
    &&& h.artist@ == def.artist@
    &&& h.artist_sort@ == def.artist_sort@
    &&& h.year == def.year
    &&& h.version == def.version
    &&& h.length_sec == def.length_sec
    &&& h.arrangements@ == arrangements
}

/// Combines a song definition and its arrangements into a song header.
pub fn load_song_header(song_def: SongDef, arrangements: Vec<Arrangement>) -> (r: SongHeader)
    ensures
        header_of(r, song_def, arrangements@),
{
    SongHeader {
        title: song_def.title,
        title_sort: song_def.title_sort,
        album: song_def.album,
        album_sort: song_def.album_sort,
        artist: song_def.artist,
        artist_sort: song_def.artist_sort,
        year: song_def.year,
        version: song_def.version,
        length_sec: song_def.length_sec,
        arrangements,
    }
}

/// Whether `asset` names the asset at `path`, if any, in the song at `song_path`.
pub open spec fn asset_at(asset: Option<AssetId>, song_path: Seq<char>, path: Option<String>) -> bool {
    match (asset, path) {
        (None, None) => true,
        (Some(a), Some(p)) => a.parent_id@ == song_path && a.id@ == p@,
        _ => false,
    }
}

/// The asset at `asset_path`, if any, in the song at `song_path`.
fn asset_in(song_path: &str, asset_path: &Option<String>) -> (r: Option<AssetId>)
    ensures
        asset_at(r, song_path@, *asset_path),
{
    match asset_path {
        Some(path) => Some(AssetId::from_paths(song_path, path.as_str())),
        None => None,
    }
}

/// Whether `s` is the unpacked song at `song_path` that `def` describes.
pub open spec fn song_of(s: Song, song_path: Seq<char>, def: SongDef) -> bool {
    &&& s.song_type == SongType::Unpacked
    &&& s.header.title@ == def.title@
    &&& s.header.title_sort@ == def.title_sort@
    &&& s.header.album@ == def.album@
    &&& s.header.album_sort@ == def.album_sort@
    &&& s.header.artist@ == def.artist@
    &&& s.header.artist_sort@ == def.artist_sort@
    &&& s.header.year == def.year
    &&& s.header.version == def.version
    &&& s.header.length_sec == def.length_sec
    &&& s.header.arrangements.len() == def.arrangements.len()
    &&& forall|i: int|
        0 <= i < def.arrangements.len() ==> arrangement_of(
            #[trigger] s.header.arrangements@[i],
            song_path,
            def.arrangements@[i],
        )
    &&& asset_at(s.cover_art, song_path, def.cover_art_path)
    &&& asset_at(s.preview, song_path, def.song_preview_path)
    &&& asset_at(s.song, song_path, def.song_path)
}

/// The unpacked song at `song_path` that `song_def` describes: its header
/// and arrangements, and its cover art, audio and preview as assets of
/// that song.
pub fn parse_song(song_path: &str, song_def: SongDef) -> (r: Song)
    ensures
        song_of(r, song_path@, song_def),
{
    let mut arrangements: Vec<Arrangement> = Vec::new();
    let mut i: usize = 0;
    while i < song_def.arrangements.len()
        invariant
            i <= song_def.arrangements.len(),
            arrangements.len() == i,
            forall|j: int|
                0 <= j < i ==> arrangement_of(
                    #[trigger] arrangements@[j],
                    song_path@,
                    song_def.arrangements@[j],
                ),
        decreases song_def.arrangements.len() - i,
    {
        arrangements.push(load_arrangement(song_path, &song_def.arrangements[i]));
        i += 1;
    }
    let cover_art = asset_in(song_path, &song_def.cover_art_path);
    let preview = asset_in(song_path, &song_def.song_preview_path);
    let song = asset_in(song_path, &song_def.song_path);
    Song {
        header: load_song_header(song_def, arrangements),
        song_type: SongType::Unpacked,
        cover_art,
        song,
        preview,
    }
}

/// Whether `path` is the path within its song of `asset`, if any.
pub open spec fn path_of(path: Option<String>, asset: Option<AssetId>) -> bool {
    match (path, asset) {
        (None, None) => true,
        (Some(p), Some(a)) => p@ == a.id@,
        _ => false,
    }
}

/// Whether `def` describes song `s`.
pub open spec fn def_of(def: SongDef, s: Song) -> bool {
    &&& def.title@ == s.header.title@
    &&& def.title_sort@ == s.header.title_sort@
    &&& def.album@ == s.header.album@
    &&& def.album_sort@ == s.header.album_sort@
    &&& def.artist@ == s.header.artist@
    &&& def.artist_sort@ == s.header.artist_sort@
    &&& def.year == s.header.year
    &&& def.version == s.header.version
    &&& def.length_sec == s.header.length_sec
    &&& path_of(def.cover_art_path, s.cover_art)
    &&& path_of(def.song_path, s.song)
    &&& path_of(def.song_preview_path, s.preview)
    &&& def.arrangements.len() == s.header.arrangements.len()
    &&& forall|i: int|
        0 <= i < def.arrangements.len() ==> {
            let d = #[trigger] def.arrangements@[i];
            let a = s.header.arrangements@[i];
            &&& d.id@ == a.id@
            &&& d.name@ == a.name@
            &&& d.instrument == a.instrument
            &&& same_tuning(d.tuning, a.tuning)
        }
}

/// The path within its song of `asset`, if any.
fn path_in(asset: &Option<AssetId>) -> (r: Option<String>)
    ensures
        path_of(r, *asset),
{
    match asset {
        Some(a) => Some(a.id.clone()),
        None => None,
    }
}

impl SongDef {
    /// The definition to store in a songfile for `song`: its header, the
    /// paths of its assets within the song, and its arrangements.
    pub fn from_song(song: &Song) -> (r: SongDef)
        ensures
            def_of(r, *song),
    {
        let header = &song.header;
        let mut arrangements: Vec<ArrangementDef> = Vec::new();
        let mut i: usize = 0;
        while i < header.arrangements.len()
            invariant
                i <= header.arrangements.len(),
                arrangements.len() == i,
                forall|j: int|
                    0 <= j < i ==> {
                        let d = #[trigger] arrangements@[j];
                        let a = header.arrangements@[j];
                        &&& d.id@ == a.id@
                        &&& d.name@ == a.name@
                        &&& d.instrument == a.instrument
                        &&& same_tuning(d.tuning, a.tuning)
                    },
            decreases header.arrangements.len() - i,
        {
            let a = &header.arrangements[i];
            arrangements.push(
                ArrangementDef {
                    id: a.id.clone(),
                    name: a.name.clone(),
                    instrument: a.instrument,
                    tuning: copy_tuning(&a.tuning),
                },
            );
            i += 1;
        }
        SongDef {
            title: header.title.clone(),
            title_sort: header.title_sort.clone(),
            album: header.album.clone(),
            album_sort: header.album_sort.clone(),
            artist: header.artist.clone(),
            artist_sort: header.artist_sort.clone(),
            year: header.year,
            version: header.version,
            length_sec: header.length_sec,
            cover_art_path: path_in(&song.cover_art),
            song_path: path_in(&song.song),
            song_preview_path: path_in(&song.preview),
            arrangements,
        }
    }
}

/// Whether two song definitions hold the same values.
pub open spec fn same_def(a: SongDef, b: SongDef) -> bool {
    &&& a.title@ == b.title@
    &&& a.title_sort@ == b.title_sort@
    &&& a.album@ == b.album@
    &&& a.album_sort@ == b.album_sort@
    &&& a.artist@ == b.artist@
    &&& a.artist_sort@ == b.artist_sort@
    &&& a.year == b.year
    &&& a.version == b.version
    &&& a.length_sec == b.length_sec
    &&& same_path(a.cover_art_path, b.cover_art_path)
    &&& same_path(a.song_path, b.song_path)
    &&& same_path(a.song_preview_path, b.song_preview_path)
    &&& a.arrangements.len() == b.arrangements.len()
    &&& forall|i: int|
        0 <= i < a.arrangements.len() ==> {
            let x = #[trigger] a.arrangements@[i];
            let y = b.arrangements@[i];
            &&& x.id@ == y.id@
            &&& x.name@ == y.name@
            &&& x.instrument == y.instrument
            &&& same_tuning(x.tuning, y.tuning)
        }
}

/// Whether two optional paths are the same.
pub open spec fn same_path(a: Option<String>, b: Option<String>) -> bool {
    match (a, b) {
        (None, None) => true,
        (Some(x), Some(y)) => x@ == y@,
        _ => false,
    }
}

/// Writing a song back out as a definition gives back the definition it
/// was read from.
pub proof fn lemma_song_def_round_trip(song_path: Seq<char>, def: SongDef, song: Song, written: SongDef)
    requires
        song_of(song, song_path, def),
        def_of(written, song),
    ensures
        same_def(written, def),
{
    assert forall|i: int| 0 <= i < written.arrangements.len() implies {
        let x = #[trigger] written.arrangements@[i];
        let y = def.arrangements@[i];
        &&& x.id@ == y.id@
        &&& x.name@ == y.name@
        &&& x.instrument == y.instrument
        &&& same_tuning(x.tuning, y.tuning)
    } by {
        assert(arrangement_of(song.header.arrangements@[i], song_path, def.arrangements@[i]));
    }
}

} // verus!
