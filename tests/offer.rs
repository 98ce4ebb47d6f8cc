use wormhole_bridge::offer::{make_send_offer, plan_offer, OfferError, OfferPlan};

fn strings(v: &[&str]) -> Vec<String> {
    v.iter().map(|s| s.to_string()).collect()
}

#[test]
fn rename_with_several_paths_is_ambiguous() {
    let paths = strings(&["a/x.txt", "b/y.txt"]);
    let r = make_send_offer(paths, &vec![true, true], Some("z".to_string()));
    assert_eq!(r, Err(OfferError::AmbiguousRename));
}

#[test]
fn rename_with_three_paths_is_ambiguous() {
    let paths = strings(&["a", "b", "c"]);
    let r = make_send_offer(paths, &vec![true, true, true], Some("new_name".to_string()));
    assert_eq!(r, Err(OfferError::AmbiguousRename));
}

#[test]
fn duplicate_base_names_name_both_paths() {
    let paths = strings(&["one/notes.txt", "other.txt", "two/notes.txt"]);
    let r = make_send_offer(paths, &vec![true, true, true], None);
    assert_eq!(
        r,
        Err(OfferError::DuplicateName {
            existing: "one/notes.txt".to_string(),
            colliding: "two/notes.txt".to_string(),
        })
    );
}

#[test]
fn first_duplicate_is_reported() {
    let names = vec![Some("a".to_string()), Some("b".to_string()), Some("b".to_string()), Some("a".to_string())];
    let paths = strings(&["w", "x", "y", "z"]);
    let r = plan_offer(paths, &vec![true; 4], &names, None);
    assert_eq!(
        r,
        Err(OfferError::DuplicateName { existing: "x".to_string(), colliding: "y".to_string() })
    );
}

#[test]
fn unique_names_keep_input_order() {
    let paths = strings(&["z/last.bin", "a/first.bin", "m/middle"]);
    let r = make_send_offer(paths.clone(), &vec![true, true, true], None);
    assert_eq!(r, Ok(OfferPlan::Paths { paths }));
}

#[test]
fn single_path_with_rename_uses_rename() {
    let r = make_send_offer(strings(&["./README.md"]), &vec![true], Some("new_name".to_string()));
    assert_eq!(
        r,
        Ok(OfferPlan::FileOrFolder { name: "new_name".to_string(), path: "./README.md".to_string() })
    );
}

#[test]
fn single_path_without_rename_uses_base_name() {
    let r = make_send_offer(strings(&["./docs/README.md"]), &vec![true], None);
    assert_eq!(
        r,
        Ok(OfferPlan::FileOrFolder {
            name: "README.md".to_string(),
            path: "./docs/README.md".to_string()
        })
    );
}

#[test]
fn trailing_slash_keeps_folder_name() {
    let r = make_send_offer(strings(&["photos/holiday/"]), &vec![true], None);
    assert_eq!(
        r,
        Ok(OfferPlan::FileOrFolder { name: "holiday".to_string(), path: "photos/holiday/".to_string() })
    );
}

#[test]
fn root_is_unnamable() {
    let r = make_send_offer(strings(&["/"]), &vec![true], None);
    assert_eq!(r, Err(OfferError::UnnamableFile { path: "/".to_string() }));
}

#[test]
fn parent_reference_in_bundle_is_unnamable() {
    let r = make_send_offer(strings(&["a.txt", "dir/.."]), &vec![true, true], None);
    assert_eq!(r, Err(OfferError::UnnamableFile { path: "dir/..".to_string() }));
}

#[test]
fn missing_path_is_reported_before_anything_else() {
    let r = make_send_offer(strings(&["a", "gone", "also-gone"]), &vec![true, false, false], Some("x".to_string()));
    assert_eq!(r, Err(OfferError::PathNotFound { path: "gone".to_string() }));
}

#[test]
fn no_paths_is_refused() {
    let r = make_send_offer(Vec::new(), &Vec::new(), None);
    assert_eq!(r, Err(OfferError::NoPaths));
}
