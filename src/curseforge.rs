use vstd::prelude::*;
use crate::text::{find_last, last_index_of, trim, trim_bounds};
use crate::version::{decimal, decimal_text, parse_semver, semver_parse, semver_text};

verus! {

/// The uploader of a file in the repository listing.
pub struct CurseForgeUser {
    pub id: i64,
    pub username: String,
    pub twitch_avatar_url: Option<String>,
    pub display_name: String,
}

/// One published file of the project, as the repository lists it.
pub struct CurseForgeFile {
    pub id: i64,
    pub date_created: String,
    pub date_modified: String,
    pub display_name: String,
    pub file_length: i64,
    pub file_name: String,
    pub status: i32,
    pub project_id: i64,
    pub game_versions: Vec<String>,
    pub game_version_type_ids: Vec<i64>,
    pub release_type: i32,
    pub total_downloads: i64,
    pub user: CurseForgeUser,
    pub additional_files_count: i32,
    pub has_server_pack: bool,
    pub additional_server_pack_files_count: i32,
    pub is_early_access_content: bool,
    pub is_compatible_with_client: bool,
}

/// The page of the listing that a response covers.
pub struct CurseForgePagination {
    pub index: i32,
    pub page_size: i32,
    pub total_count: i32,
}

/// A response of the repository's file-listing endpoint.
pub struct CurseForgeFilesResponse {
    pub data: Vec<CurseForgeFile>,
    pub pagination: CurseForgePagination,
}

/// What is known of the latest server pack: its version and the id of
/// its file in the repository, by which it is downloaded.
pub struct ServerPackInfo {
    pub version: String,
    pub file_id: i64,
}

/// Why the latest server pack could not be determined.
#[derive(PartialEq, Eq, Structural)]
pub enum LookupError {
    /// The listing could not be fetched.
    FetchFailed,
    /// The listing could not be decoded.
    ParseFailed,
    /// No listed file has a server pack.
    NoServerPack,
}

impl LookupError {
    /// The message shown for this error.
    pub fn message(&self) -> (r: &'static str)
        ensures
            r@ == lookup_error_text(*self),
    {
        match self {
            LookupError::FetchFailed => "Failed to fetch CurseForge API",
            LookupError::ParseFailed => "Failed to parse CurseForge API response",
            LookupError::NoServerPack => "No server pack found",
        }
    }
}

/// The message of each lookup error.
pub open spec fn lookup_error_text(e: LookupError) -> Seq<char> {
    match e {
        LookupError::FetchFailed => "Failed to fetch CurseForge API"@,
        LookupError::ParseFailed => "Failed to parse CurseForge API response"@,
        LookupError::NoServerPack => "No server pack found"@,
    }
}

/// The ids and server-pack flags of a listing, in order.
pub open spec fn pack_flags(files: Seq<CurseForgeFile>) -> Seq<(i64, bool)> {
    files.map_values(|f: CurseForgeFile| (f.id, f.has_server_pack))
}

/// Entry `k` is the one to pick: it has a server pack, no entry with a
/// server pack has a higher id, and none before it has the same id.
pub open spec fn is_latest_pack(files: Seq<(i64, bool)>, k: int) -> bool {
    &&& 0 <= k < files.len()
    &&& files[k].1
    &&& forall|j: int| 0 <= j < files.len() && files[j].1 ==> files[j].0 <= files[k].0
    &&& forall|j: int| 0 <= j < k && files[j].1 ==> files[j].0 < files[k].0
}

/// Whether some entry has a server pack.
pub open spec fn has_any_pack(files: Seq<(i64, bool)>) -> bool {
    exists|j: int| 0 <= j < files.len() && files[j].1
}

/// Picks the entry with a server pack and the highest id, the first of
/// equal ids; `None` where no entry has a server pack.
pub fn latest_pack_index(files: &Vec<CurseForgeFile>) -> (r: Option<usize>)
    ensures
        match r {
            Some(k) => is_latest_pack(pack_flags(files@), k as int),
            None => !has_any_pack(pack_flags(files@)),
        },
{
    let ghost flags = pack_flags(files@);
    let mut best: Option<usize> = None;
    let mut i: usize = 0;
    while i < files.len()
        invariant
            i <= files@.len(),
            flags == pack_flags(files@),
            match best {
                Some(k) => {
                    &&& k < i
                    &&& flags[k as int].1
                    &&& forall|j: int| 0 <= j < i && flags[j].1 ==> flags[j].0 <= flags[k as int].0
                    &&& forall|j: int| 0 <= j < k && flags[j].1 ==> flags[j].0 < flags[k as int].0
                },
                None => forall|j: int| 0 <= j < i ==> !flags[j].1,
            },
        decreases files@.len() - i,
    {
        let f = &files[i];
        if f.has_server_pack {
            match best {
                Some(k) => {
                    if f.id > files[k].id {
                        best = Some(i);
                    }
                },
                None => {
                    best = Some(i);
                },
            }
        }
        i = i + 1;
    }
    best
}

/// The version token of a display name: the text after its last `-`,
/// trimmed, or `unknown` where it has no `-`.
pub open spec fn version_token(name: Seq<char>) -> Seq<char> {
    match last_index_of(name, '-') {
        Some(i) => trim(name.subrange(i + 1, name.len() as int)),
        None => "unknown"@,
    }
}

/// The version named by a display name: the canonical text of its token
/// where that is a semantic version, else the token itself.
pub open spec fn pack_version(name: Seq<char>) -> Seq<char> {
    let t = version_token(name);
    match semver_parse(t) {
        Some(v) => semver_text(v),
        None => t,
    }
}

/// Takes the version token out of a display name.
pub fn display_name_token(name: &str) -> (r: String)
    ensures
        r@ == version_token(name@),
{
    match find_last(name, '-') {
        Some(i) => {
            let n: usize = name.unicode_len();
            let (a, b) = trim_bounds(name, i + 1, n);
            name.substring_char(a, b).to_owned()
        },
        None => String::from_str("unknown"),
    }
}

/// The version that a display name announces.
pub fn version_from_display_name(name: &str) -> (r: String)
    ensures
        r@ == pack_version(name@),
{
    let t = display_name_token(name);
    match parse_semver(t.as_str()) {
        Some(v) => v.to_text(),
        None => t,
    }
}

/// Chooses the latest server pack of a listing and reads its version.
pub fn latest_server_pack(response: &CurseForgeFilesResponse) -> (r: Result<
    ServerPackInfo,
    LookupError,
>)
    ensures
        match r {
            Ok(info) => exists|k: int|
                is_latest_pack(pack_flags(response.data@), k) && info.version@ == pack_version(
                    #[trigger] response.data@[k].display_name@,
                ) && info.file_id == response.data@[k].id,
            Err(e) => e == LookupError::NoServerPack && !has_any_pack(
                pack_flags(response.data@),
            ),
        },
{
    match latest_pack_index(&response.data) {
        Some(k) => {
            let version = version_from_display_name(response.data[k].display_name.as_str());
            Ok(ServerPackInfo { version, file_id: response.data[k].id })
        },
        None => Err(LookupError::NoServerPack),
    }
}

/// The repository's file-listing endpoint for the modpack project.
pub const FILES_URL: &'static str = "https://www.curseforge.com/api/v1/mods/925200/files/";

/// Where the file of this id is downloaded from: `<files>/<id>/download`;
/// `None` for a negative id, which names no file.
pub fn download_url(file_id: i64) -> (r: Option<String>)
    ensures
        file_id < 0 ==> r is None,
        file_id >= 0 ==> (r matches Some(u) && u@ == FILES_URL@ + decimal(file_id as nat)
            + "/download"@),
{
    if file_id < 0 {
        return None;
    }
    let mut u = String::from_str(FILES_URL);
    let id = decimal_text(file_id as u64);
    u.append(id.as_str());
    u.append("/download");
    Some(u)
}

} // verus!
