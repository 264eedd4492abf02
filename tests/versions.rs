use mc_manager::curseforge::{
    latest_server_pack, version_from_display_name, CurseForgeFile, CurseForgeFilesResponse,
    CurseForgePagination, CurseForgeUser, LookupError,
};
use mc_manager::report::{extra_mods_json, local_modpack_version, update_status, ConfigError};
use mc_manager::curseforge::ServerPackInfo;
use mc_manager::version::versions_equal;

fn file(id: i64, has_server_pack: bool, display_name: &str) -> CurseForgeFile {
    CurseForgeFile {
        id,
        date_created: String::from("2024-01-01T00:00:00Z"),
        date_modified: String::from("2024-01-01T00:00:00Z"),
        display_name: display_name.to_string(),
        file_length: 1,
        file_name: format!("{}.zip", display_name),
        status: 4,
        project_id: 925200,
        game_versions: vec![String::from("1.21.1")],
        game_version_type_ids: vec![1],
        release_type: 1,
        total_downloads: 0,
        user: CurseForgeUser {
            id: 1,
            username: String::from("someone"),
            twitch_avatar_url: None,
            display_name: String::from("Someone"),
        },
        additional_files_count: 0,
        has_server_pack,
        additional_server_pack_files_count: 0,
        is_early_access_content: false,
        is_compatible_with_client: true,
    }
}

fn listing(data: Vec<CurseForgeFile>) -> CurseForgeFilesResponse {
    let n = data.len() as i32;
    CurseForgeFilesResponse { data, pagination: CurseForgePagination { index: 0, page_size: 50, total_count: n } }
}

#[test]
fn equal_semantic_versions_match() {
    assert!(versions_equal("10.1.3", "10.1.3"));
}

#[test]
fn prefixed_version_falls_back_to_text() {
    assert!(!versions_equal("10.1.3", "v10.1.3"));
    assert!(versions_equal("v10.1.3", "v10.1.3"));
}

#[test]
fn different_semantic_versions_differ() {
    assert!(!versions_equal("10.1.3", "10.1.4"));
    assert!(!versions_equal("1.0.0-alpha", "1.0.0"));
    assert!(!versions_equal("1.0.0+a", "1.0.0+b"));
    assert!(versions_equal("1.0.0-rc.1+build.5", "1.0.0-rc.1+build.5"));
}

#[test]
fn non_semantic_versions_compare_as_text() {
    assert!(versions_equal("ATM10", "ATM10"));
    assert!(!versions_equal("1.2", "1.2.0"));
    assert!(!versions_equal("", "1.0.0"));
}

#[test]
fn latest_pack_is_highest_qualifying_id() {
    let r = listing(vec![
        file(5, false, "Pack-Server-9.9.9"),
        file(9, true, "Pack-Server-1.2.0"),
        file(7, true, "Pack-Server-1.1.0"),
    ]);
    let info = latest_server_pack(&r).ok().unwrap();
    assert_eq!(info.version, "1.2.0");
    assert_eq!(info.file_id, 9);
}

#[test]
fn latest_pack_ignores_entries_without_server_pack() {
    let r = listing(vec![file(3, true, "Pack-2.0.0"), file(12, false, "Pack-3.0.0")]);
    assert_eq!(latest_server_pack(&r).ok().unwrap().version, "2.0.0");
}

#[test]
fn latest_pack_first_of_equal_ids() {
    let r = listing(vec![file(4, true, "Pack-1.0.0"), file(4, true, "Pack-2.0.0")]);
    assert_eq!(latest_server_pack(&r).ok().unwrap().version, "1.0.0");
}

#[test]
fn no_server_pack_is_lookup_error() {
    let r = listing(vec![file(5, false, "Pack-1.0.0")]);
    let e = latest_server_pack(&r).err().unwrap();
    assert!(e == LookupError::NoServerPack);
    assert_eq!(e.message(), "No server pack found");
    let empty = listing(vec![]);
    assert!(latest_server_pack(&empty).err().unwrap() == LookupError::NoServerPack);
}

#[test]
fn lookup_error_messages() {
    assert_eq!(LookupError::FetchFailed.message(), "Failed to fetch CurseForge API");
    assert_eq!(LookupError::ParseFailed.message(), "Failed to parse CurseForge API response");
}

#[test]
fn display_name_version_after_last_hyphen() {
    assert_eq!(version_from_display_name("Pack-Server-1.2.0"), "1.2.0");
    assert_eq!(version_from_display_name("All the Mods 10 - 2.41 "), "2.41");
    assert_eq!(version_from_display_name("Pack-v1.0.0"), "v1.0.0");
}

#[test]
fn display_name_hotfix_suffix_takes_last_token() {
    assert_eq!(version_from_display_name("ATM10-Server-1.0.1-hotfix-2"), "2");
}

#[test]
fn display_name_without_hyphen_is_unknown() {
    assert_eq!(version_from_display_name("Server Files 1.0.0"), "unknown");
}

#[test]
fn display_name_semver_is_canonical() {
    assert_eq!(version_from_display_name("Pack- 1.2.3-beta.1+b7 "), "beta.1+b7");
    assert_eq!(version_from_display_name("Pack-10.20.30"), "10.20.30");
    assert_eq!(version_from_display_name("Pack-"), "");
}

#[test]
fn local_version_read_from_config() {
    let text = "[general]\n\tmodpackProjectID = 925200\n\tmodpackName = \"All the Mods 10\"\n\tmodpackVersion = \"2.41\"\n";
    assert_eq!(local_modpack_version(text).ok().unwrap(), "2.41");
}

#[test]
fn local_version_missing_is_config_error() {
    let e = local_modpack_version("[general]\nmodpackName = \"x\"\n").err().unwrap();
    assert!(e == ConfigError::FieldMissing);
    assert_eq!(e.message(), "Could not find modpackVersion in bcc-common.toml");
    assert!(local_modpack_version("modpackVersion = \"\"").is_err());
}

#[test]
fn update_status_compares_versions() {
    let s = update_status(String::from("10.1.3"), ServerPackInfo { version: String::from("10.1.3"), file_id: 1 });
    assert!(s.up_to_date);
    assert_eq!(s.local_version, "10.1.3");
    assert_eq!(s.latest_version, "10.1.3");
    let t = update_status(String::from("2.40"), ServerPackInfo { version: String::from("2.41"), file_id: 2 });
    assert!(!t.up_to_date);
}

#[test]
fn extra_mods_listing_is_json_array() {
    let names = vec![String::from("a.jar"), String::from("b \"q\".jar")];
    assert_eq!(extra_mods_json(&names).ok().unwrap(), "[\"a.jar\",\"b \\\"q\\\".jar\"]");
    assert_eq!(extra_mods_json(&vec![]).ok().unwrap(), "[]");
}

#[test]
fn semver_canonical_text() {
    let v = mc_manager::version::SemVer {
        major: 10,
        minor: 0,
        patch: 305,
        pre: String::from("rc.1"),
        build: String::from("b7"),
    };
    assert_eq!(v.to_text(), "10.0.305-rc.1+b7");
    let plain = mc_manager::version::SemVer {
        major: 0,
        minor: 18446744073709551615,
        patch: 9,
        pre: String::new(),
        build: String::new(),
    };
    assert_eq!(plain.to_text(), "0.18446744073709551615.9");
}

#[test]
fn download_url_of_file_id() {
    assert_eq!(
        mc_manager::curseforge::download_url(6543210).unwrap(),
        "https://www.curseforge.com/api/v1/mods/925200/files/6543210/download"
    );
    assert!(mc_manager::curseforge::download_url(-1).is_none());
}

#[test]
fn extra_mods_listing_escapes_controls() {
    let names = vec![String::from("a\u{1}b"), String::from("x\ny\t\\"), String::from("é/z")];
    assert_eq!(
        extra_mods_json(&names).ok().unwrap(),
        "[\"a\\u0001b\",\"x\\ny\\t\\\\\",\"é/z\"]"
    );
}
