use mc_manager::config::{modpack_version, motd_setting_text, motd_update, patch_motd, restored_properties};
use mc_manager::manifest::{
    is_jar_name, jar_names, manifest_to_write, mods_manifest, parse_manifest, render_manifest,
};
use mc_manager::workflow::Step;
use mc_manager::text::trimmed;

fn strings(v: &[&str]) -> Vec<String> {
    v.iter().map(|s| s.to_string()).collect()
}

#[test]
fn manifest_round_trip() {
    let names = strings(&["a.jar", "b.jar"]);
    let text = render_manifest(&names);
    assert_eq!(text, "a.jar\nb.jar");
    assert_eq!(parse_manifest(&text), names);
}

#[test]
fn manifest_round_trip_trailing_newline() {
    let names = strings(&["a.jar", "b.jar"]);
    let text = format!("{}\n", render_manifest(&names));
    assert_eq!(parse_manifest(&text), names);
}

#[test]
fn empty_manifest_is_empty_text() {
    assert_eq!(render_manifest(&vec![]), "");
    assert!(parse_manifest("").is_empty());
    assert!(parse_manifest("\n\n  \n").is_empty());
}

#[test]
fn manifest_lines_trimmed_and_blank_lines_dropped() {
    assert_eq!(parse_manifest("  a.jar \r\n\n\tb.jar\n"), strings(&["a.jar", "b.jar"]));
}

#[test]
fn manifest_of_mods_keeps_jars() {
    let files = strings(&["x.jar", "readme.txt", "y.jar", "jar"]);
    assert_eq!(jar_names(&files), strings(&["x.jar", "y.jar"]));
    assert_eq!(mods_manifest(&files), "x.jar\ny.jar");
}

#[test]
fn jar_names_recognised() {
    assert!(is_jar_name("mod.jar"));
    assert!(is_jar_name(".jar"));
    assert!(!is_jar_name("mod.JAR"));
    assert!(!is_jar_name("mod.jar.disabled"));
    assert!(!is_jar_name("jar"));
}

#[test]
fn trim_removes_unicode_white_space() {
    assert_eq!(trimmed("\u{3000} a b\u{a0}\n"), "a b");
    assert_eq!(trimmed("   "), "");
}

#[test]
fn version_field_found() {
    let text = "modpackVersion=\"1.0\"";
    assert_eq!(modpack_version(text, true).unwrap(), "1.0");
    let spaced = "x = 1\nmodpackVersion \t=\n \"2.5\" # note\n";
    assert_eq!(modpack_version(spaced, false).unwrap(), "2.5");
}

#[test]
fn version_field_first_assignment_wins() {
    let text = "modpackVersion = \"1\"\nmodpackVersion = \"2\"";
    assert_eq!(modpack_version(text, true).unwrap(), "1");
}

#[test]
fn version_field_empty_value() {
    let text = "modpackVersion = \"\"\nmodpackVersion = \"3.0\"";
    assert_eq!(modpack_version(text, false).unwrap(), "");
    assert_eq!(modpack_version(text, true).unwrap(), "3.0");
}

#[test]
fn version_field_absent() {
    assert!(modpack_version("modpackVersion = 3", false).is_none());
    assert!(modpack_version("modpackVersion = \"unterminated", false).is_none());
    assert!(modpack_version("", true).is_none());
}

#[test]
fn motd_setting_format() {
    assert_eq!(motd_setting_text("2.41"), "motd=V2.41 + extras");
}

#[test]
fn motd_replaced_in_place() {
    let props = "level-name=world\nmotd=Old message\npvp=true\n";
    assert_eq!(
        patch_motd(props, "2.41"),
        "level-name=world\nmotd=V2.41 + extras\npvp=true\n"
    );
}

#[test]
fn motd_only_first_setting_replaced() {
    let props = "motd = a\nmotd=b";
    assert_eq!(patch_motd(props, "1"), "motd=V1 + extras\nmotd=b");
}

#[test]
fn motd_must_start_a_line() {
    let props = "xmotd=a\n";
    assert_eq!(patch_motd(props, "1"), "xmotd=a\nmotd=V1 + extras");
}

#[test]
fn motd_appended_when_missing() {
    assert_eq!(patch_motd("pvp=true\n\n", "3"), "pvp=true\nmotd=V3 + extras");
    assert_eq!(patch_motd("", "3"), "\nmotd=V3 + extras");
}

#[test]
fn restored_properties_use_config_version() {
    let config = "modpackVersion = \"4.1\"";
    assert_eq!(
        restored_properties(config, "motd=x\n").unwrap(),
        "motd=V4.1 + extras\n"
    );
    assert!(restored_properties("nothing here", "motd=x\n").is_none());
}

#[test]
fn manifest_trailing_blank_lines_ignored() {
    let names = strings(&["a.jar", "b.jar"]);
    let text = format!("{}\n\n  \n\t\n", render_manifest(&names));
    assert_eq!(parse_manifest(&text), names);
    assert!(parse_manifest("\n \n").is_empty());
}

#[test]
fn manifest_written_unless_present_or_unlisted() {
    let files = strings(&["a.jar", "b.txt"]);
    assert_eq!(manifest_to_write(Step::WriteModsManifest, true, Some(files.clone())).unwrap(), "a.jar");
    assert_eq!(manifest_to_write(Step::RegenerateManifest, false, Some(files.clone())).unwrap(), "a.jar");
    assert!(manifest_to_write(Step::RegenerateManifest, true, Some(files)).is_none());
    assert!(manifest_to_write(Step::WriteModsManifest, false, None).is_none());
}

#[test]
fn motd_update_needs_both_files_and_a_version() {
    let config = Some(String::from("modpackVersion = \"5\""));
    let props = Some(String::from("motd=x"));
    assert_eq!(motd_update(config.clone(), props.clone()).unwrap(), "motd=V5 + extras");
    assert!(motd_update(None, props.clone()).is_none());
    assert!(motd_update(config, None).is_none());
    assert!(motd_update(Some(String::from("none")), props).is_none());
}
