use isamedia::apps::revealing::{
    match_index, normalise_title, ArrTargets, Candidate, RevealKind, RevealMiss, RevealRequest,
};

fn request(external_id: Option<i64>, title: &str, year: Option<i32>) -> RevealRequest {
    RevealRequest {
        reveal_gen: 1,
        origin: "jellyfin",
        kind: RevealKind::Movie,
        external_id,
        title: title.to_string(),
        year,
    }
}

fn candidate(external_id: Option<i64>, title: &str, year: Option<i32>) -> Candidate<'_> {
    Candidate {
        external_id,
        title: Some(title),
        year,
    }
}

#[test]
fn normalises_punctuation_case_and_spacing() {
    assert_eq!(
        normalise_title("Spider-Man: No Way Home"),
        "spider man no way home"
    );
    assert_eq!(normalise_title("  WALL[]E  "), "wall e");
    assert_eq!(normalise_title("Am\u{e9}lie"), "am\u{e9}lie");
    assert_eq!(normalise_title("!!!"), "");
}

#[test]
fn external_id_wins_over_a_matching_title() {
    // The id is authoritative: entry 1 matches it even though entry 0 is
    // the one whose title looks right.
    let library = [
        candidate(Some(999), "The Matrix", Some(1999)),
        candidate(Some(603), "Matrix, The", Some(1999)),
    ];
    let found = match_index(&library, &request(Some(603), "The Matrix", Some(1999)));
    assert_eq!(found, Ok(1));
}

#[test]
fn falls_back_to_title_and_year() {
    // No id on either side of the comparison, so the title carries it.
    let library = [
        candidate(None, "Dune", Some(1984)),
        candidate(None, "Dune", Some(2021)),
    ];
    assert_eq!(
        match_index(&library, &request(None, "Dune", Some(2021))),
        Ok(1)
    );
    assert_eq!(
        match_index(&library, &request(None, "dune!", Some(1984))),
        Ok(0)
    );
}

#[test]
fn year_mismatch_is_not_a_match() {
    let library = [candidate(None, "Dune", Some(2021))];
    assert_eq!(
        match_index(&library, &request(None, "Dune", Some(1984))),
        Err(RevealMiss::NotFound)
    );
}

#[test]
fn missing_year_on_either_side_still_matches() {
    assert_eq!(
        match_index(
            &[candidate(None, "Dune", None)],
            &request(None, "Dune", Some(2021))
        ),
        Ok(0)
    );
    assert_eq!(
        match_index(
            &[candidate(None, "Dune", Some(2021))],
            &request(None, "Dune", None)
        ),
        Ok(0)
    );
}

#[test]
fn indistinguishable_titles_report_ambiguity() {
    // Two remakes and nothing to tell them apart: better to say so than to
    // open one at random.
    let library = [
        candidate(None, "Dune", Some(1984)),
        candidate(None, "Dune", Some(2021)),
    ];
    assert_eq!(
        match_index(&library, &request(None, "Dune", None)),
        Err(RevealMiss::Ambiguous)
    );
}

#[test]
fn empty_library_and_untitled_request_find_nothing() {
    assert_eq!(
        match_index(&[], &request(Some(603), "The Matrix", None)),
        Err(RevealMiss::NotFound)
    );
    // A title that normalises to nothing must not match everything.
    assert_eq!(
        match_index(&[candidate(None, "Dune", None)], &request(None, "???", None)),
        Err(RevealMiss::NotFound)
    );
}

#[test]
fn miss_reasons_name_the_app() {
    assert_eq!(RevealMiss::NotFound.reason("Radarr"), "not in Radarr");
    assert_eq!(
        RevealMiss::Ambiguous.reason("Sonarr"),
        "several possible matches in Sonarr"
    );
    assert_eq!(
        RevealMiss::Unavailable.reason("Radarr"),
        "Radarr is unavailable"
    );
    assert_eq!(RevealKind::Movie.app_id(), "radarr");
    assert_eq!(RevealKind::Series.app_title(), "Sonarr");
}

#[test]
fn targets_are_asked_by_kind() {
    let targets = ArrTargets {
        radarr: true,
        sonarr: false,
    };
    assert!(targets.has(RevealKind::Movie));
    assert!(!targets.has(RevealKind::Series));
    assert!(!ArrTargets::default().has(RevealKind::Movie));
}

#[test]
fn an_id_hit_after_title_hits_still_wins() {
    // Two titles agree, but the id further down settles it.
    let library = [
        candidate(None, "Dune", None),
        candidate(None, "Dune", None),
        candidate(Some(438631), "Dune: Part One", Some(2021)),
    ];
    assert_eq!(
        match_index(&library, &request(Some(438631), "Dune", Some(2021))),
        Ok(2)
    );
}

#[test]
fn folding_twice_or_in_another_case_changes_nothing() {
    for title in ["Spider-Man: No Way Home", "  WALL-E (2008) ", "!!!", "8 1/2"] {
        let once = normalise_title(title);
        assert_eq!(normalise_title(&once), once);
        assert_eq!(normalise_title(&title.to_ascii_uppercase()), once);
    }
}
