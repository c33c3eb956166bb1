use lelang_scraper::model::Province;
use lelang_scraper::provinces::{join, pick_province, resolve_province_ids, ResolveError};

fn province(id: &str, nama: &str) -> Province {
    Province { id: id.to_string(), nama: nama.to_string(), full_code: None, code: None }
}

fn provinces() -> Vec<Province> {
    vec![
        province("11111111-1111-1111-1111-111111111111", "DKI JAKARTA"),
        province("22222222-2222-2222-2222-222222222222", "JAWA BARAT"),
        province("33333333-3333-3333-3333-333333333333", "JAWA TENGAH"),
        province("44444444-4444-4444-4444-444444444444", "Bali"),
    ]
}

fn strings(xs: &[&str]) -> Vec<String> {
    xs.iter().map(|s| s.to_string()).collect()
}

#[test]
fn resolves_names_case_insensitively() {
    let ids = resolve_province_ids(&provinces(), &strings(&["jakarta", " Jawa Barat ", "bal"])).unwrap();
    assert_eq!(
        ids,
        strings(&[
            "11111111-1111-1111-1111-111111111111",
            "22222222-2222-2222-2222-222222222222",
            "44444444-4444-4444-4444-444444444444",
        ])
    );
}

#[test]
fn takes_uuids_as_they_are() {
    let ids = resolve_province_ids(&provinces(), &strings(&["  abcdefab-0000-0000-0000-000000000000 "])).unwrap();
    assert_eq!(ids, strings(&["abcdefab-0000-0000-0000-000000000000"]));
    // short entries with a dash are matched as names
    let err = resolve_province_ids(&provinces(), &strings(&["a-b"])).unwrap_err();
    assert_eq!(err, ResolveError::NoMatch { input: "a-b".to_string() });
}

#[test]
fn empty_filter_resolves_to_nothing() {
    assert_eq!(resolve_province_ids(&[], &[]).unwrap(), Vec::<String>::new());
}

#[test]
fn unknown_province_is_refused() {
    let err = resolve_province_ids(&provinces(), &strings(&["jakarta", "papua"])).unwrap_err();
    assert_eq!(err, ResolveError::NoMatch { input: "papua".to_string() });
    assert_eq!(
        err.message(),
        "No province matches 'papua'. Use `provinces` command to list all."
    );
}

#[test]
fn ambiguous_province_is_refused() {
    let err = resolve_province_ids(&provinces(), &strings(&["jawa", "papua"])).unwrap_err();
    assert_eq!(
        err,
        ResolveError::Ambiguous {
            input: "jawa".to_string(),
            names: strings(&["JAWA BARAT", "JAWA TENGAH"]),
        }
    );
    assert_eq!(
        err.message(),
        "'jawa' matches multiple provinces: JAWA BARAT, JAWA TENGAH. Be more specific."
    );
}

#[test]
fn blank_entry_matches_every_province() {
    let err = resolve_province_ids(&provinces(), &strings(&["   "])).unwrap_err();
    match err {
        ResolveError::Ambiguous { input, names } => {
            assert_eq!(input, "");
            assert_eq!(names.len(), 4);
        }
        other => panic!("unexpected {other:?}"),
    }
}

#[test]
fn resolving_ids_again_is_stable() {
    let first = resolve_province_ids(&provinces(), &strings(&["bali"])).unwrap();
    let again = resolve_province_ids(&provinces(), &first).unwrap();
    assert_eq!(first, again);
}

#[test]
fn join_lists() {
    assert_eq!(join(&strings(&[]), ", "), "");
    assert_eq!(join(&strings(&["a"]), ", "), "a");
    assert_eq!(join(&strings(&["a", "b", "c"]), ", "), "a, b, c");
}

#[test]
fn pick_province_uses_the_given_upper_cased_names() {
    let ps = provinces();
    let uppers = strings(&["DKI JAKARTA", "JAWA BARAT", "JAWA TENGAH", "BALI"]);
    assert_eq!(
        pick_province(&ps, &uppers, "tengah", "TENGAH").unwrap(),
        "33333333-3333-3333-3333-333333333333"
    );
    assert_eq!(
        pick_province(&ps, &uppers, "jawa", "JAWA").unwrap_err(),
        ResolveError::Ambiguous {
            input: "jawa".to_string(),
            names: strings(&["JAWA BARAT", "JAWA TENGAH"]),
        }
    );
    assert_eq!(
        pick_province(&ps, &uppers, "x", "X").unwrap_err(),
        ResolveError::NoMatch { input: "x".to_string() }
    );
}
