use chetris::settings::{load_doc, save_doc, SettingsDoc};

#[test]
fn empty_text_is_empty_document() {
    let doc = load_doc("");
    assert_eq!(doc.get_flag("particles"), None);
}

#[test]
fn malformed_text_is_empty_document() {
    let doc = load_doc("this is not a settings file");
    assert_eq!(doc.get_flag("particles"), None);
}

#[test]
fn load_reads_flags_and_skips_strings() {
    let doc = load_doc("{\"particles\": false, \"theme\": \"matrix\", \"shake\": true}");
    assert_eq!(doc.get_flag("particles"), Some(false));
    assert_eq!(doc.get_flag("shake"), Some(true));
    // a string entry is not a flag
    assert_eq!(doc.get_flag("theme"), None);
    assert_eq!(doc.get_flag("missing"), None);
}

#[test]
fn set_flag_overwrites() {
    let mut doc = SettingsDoc::empty();
    doc.set_flag("particles", true);
    assert_eq!(doc.get_flag("particles"), Some(true));
    doc.set_flag("particles", false);
    assert_eq!(doc.get_flag("particles"), Some(false));
}

#[test]
fn toggle_absent_flag_defaults_true_and_persists_false() {
    let mut doc = SettingsDoc::empty();
    let new_val = doc.toggle_flag("particles", true);
    assert_eq!(new_val, false);
    assert_eq!(doc.get_flag("particles"), Some(false));
    // the persisted document contains {"particles": false}
    let text = save_doc(&doc);
    let reloaded = load_doc(&text);
    assert_eq!(reloaded.get_flag("particles"), Some(false));
}

#[test]
fn toggle_twice_round_trips() {
    let mut doc = SettingsDoc::empty();
    assert_eq!(doc.toggle_flag("particles", true), false);
    assert_eq!(doc.toggle_flag("particles", true), true);
    assert_eq!(doc.get_flag("particles"), Some(true));
}

#[test]
fn save_and_load_keeps_every_entry() {
    let doc = load_doc("{\"autoFade\": false, \"label\": \"hello\", \"shake\": true}");
    let text = save_doc(&doc);
    let reloaded = load_doc(&text);
    assert_eq!(reloaded.get_flag("autoFade"), Some(false));
    assert_eq!(reloaded.get_flag("shake"), Some(true));
    assert_eq!(reloaded.get_flag("label"), None);
}

#[test]
fn toggle_string_entry_reads_as_default() {
    let mut doc = load_doc("{\"particles\": \"yes\"}");
    // a non-boolean entry is unparsable as a flag: default true, inverted
    assert_eq!(doc.toggle_flag("particles", true), false);
    assert_eq!(doc.get_flag("particles"), Some(false));
}
