use blog_backend::web::article_import::{
    earliest_first, is_import_file, modified_time, plan_import, ImportError, ImportFacts,
    ImportOpenError, ImportService, ImportStep, Modified, PathFacts,
};
use blog_backend::web::dtos::{ImportedArticleDto, ImportedArticleTagDto, JsonStatus};

fn import(id: Option<i32>, action: Option<u32>, user_id: Option<i32>) -> ImportedArticleDto {
    ImportedArticleDto {
        action,
        article_url: None,
        article_url_bis: None,
        content: None,
        id,
        published: None,
        short: None,
        summary: None,
        tags: None,
        title: None,
        user_id,
        thumb_image: None,
    }
}

fn facts() -> ImportFacts {
    ImportFacts { article_exists: true, missing_tag: None, user_exists: true, url_owner: None }
}

fn rejection(step: ImportStep) -> (String, Option<i32>) {
    match step {
        ImportStep::Reject(status) => {
            assert_eq!(status.status, "error");
            (status.message, status.id)
        }
        other => panic!("not refused: {:?}", other),
    }
}

#[test]
fn import_service_needs_a_writable_directory() {
    let ok = PathFacts { read_only: false, is_dir: true };
    let service = ImportService::from("./import/", Some(ok)).ok().unwrap();
    assert_eq!(service.import_path(), "./import/");
    assert_eq!(
        ImportService::from("x", Some(PathFacts { read_only: true, is_dir: true })).err(),
        Some(ImportOpenError::NotWritable)
    );
    assert_eq!(
        ImportService::from("x", Some(PathFacts { read_only: false, is_dir: false })).err(),
        Some(ImportOpenError::NotWritable)
    );
    assert_eq!(ImportService::from("x", None).err(), Some(ImportOpenError::Unreadable));
}

#[test]
fn only_one_import_at_a_time() {
    let ok = PathFacts { read_only: false, is_dir: true };
    let mut service = ImportService::from("./import/", Some(ok)).ok().unwrap();
    assert!(service.begin_import().is_ok());
    let refused = service.begin_import().err().unwrap();
    assert_eq!(refused.status, "error");
    assert_eq!(refused.message, "An import is already in progress");
    service.unlock();
    assert_eq!(service.check_lock_set_if_unlocked(), false);
    assert_eq!(service.check_lock_set_if_unlocked(), true);
    service.unlock();
    service.lock();
    assert!(service.begin_import().is_err());
}

#[test]
fn import_files_are_small_writable_json_files() {
    assert!(is_import_file(Some("json"), true, 10, false));
    assert!(is_import_file(Some("JSON"), true, 31457279, false));
    assert!(!is_import_file(Some("json"), true, 31457280, false));
    assert!(!is_import_file(Some("json"), false, 10, false));
    assert!(!is_import_file(Some("json"), true, 10, true));
    assert!(!is_import_file(Some("txt"), true, 10, false));
    assert!(!is_import_file(Some(""), true, 10, false));
    assert!(!is_import_file(None, true, 10, false));
    assert_eq!(modified_time(Modified::At(5)), 5);
    assert_eq!(modified_time(Modified::BeforeEpoch), u64::MAX);
    assert_eq!(modified_time(Modified::Unknown), 0);
}

#[test]
fn files_are_imported_earliest_first() {
    assert_eq!(earliest_first(&vec![]), Vec::<usize>::new());
    assert_eq!(earliest_first(&vec![7]), vec![0]);
    assert_eq!(earliest_first(&vec![30, 10, 20]), vec![1, 2, 0]);
    // Files of the same moment keep the order in which they were listed.
    assert_eq!(earliest_first(&vec![5, 1, 5, 1, 5, 0]), vec![5, 1, 3, 0, 2, 4]);
    assert_eq!(earliest_first(&vec![u64::MAX, 0, u64::MAX]), vec![1, 0, 2]);
}

#[test]
fn import_plan_follows_the_checks_in_order() {
    assert!(matches!(plan_import(&import(Some(4), Some(1), None), facts()), ImportStep::Delete(4)));
    assert!(matches!(plan_import(&import(Some(4), None, None), facts()), ImportStep::Update(4)));
    assert!(matches!(plan_import(&import(Some(4), Some(2), None), facts()), ImportStep::Update(4)));
    assert!(matches!(plan_import(&import(None, None, Some(1)), facts()), ImportStep::Insert));
    // An action without an id deletes nothing.
    assert!(matches!(plan_import(&import(None, Some(1), Some(1)), facts()), ImportStep::Insert));
    assert_eq!(
        rejection(plan_import(&import(None, None, None), facts())),
        ("Field userId is required when inserting articles".to_string(), None)
    );
    let mut missing = facts();
    missing.article_exists = false;
    assert_eq!(
        rejection(plan_import(&import(Some(4), Some(1), None), missing)),
        ("Article ID doesn't exist".to_string(), Some(4))
    );
    // Without an id nothing is asked of the article.
    assert!(matches!(plan_import(&import(None, None, Some(1)), missing), ImportStep::Insert));
    let mut tagged = import(None, None, Some(2));
    tagged.tags = Some(vec![ImportedArticleTagDto { id: 7, name: None }]);
    let mut no_tag = facts();
    no_tag.missing_tag = Some(7);
    no_tag.user_exists = false;
    assert_eq!(
        rejection(plan_import(&tagged, no_tag)),
        ("Tag with ID 7 does not exist".to_string(), None)
    );
    no_tag.missing_tag = None;
    assert_eq!(
        rejection(plan_import(&tagged, no_tag)),
        ("User with ID 2 does not exist".to_string(), None)
    );
    let mut with_url = import(Some(4), None, None);
    with_url.article_url = Some("taken".to_string());
    let mut owned = facts();
    owned.url_owner = Some(5);
    assert_eq!(
        rejection(plan_import(&with_url, owned)),
        ("Article URL taken already exists".to_string(), None)
    );
    owned.url_owner = Some(4);
    assert!(matches!(plan_import(&with_url, owned), ImportStep::Update(4)));
    with_url.id = None;
    with_url.user_id = Some(1);
    assert_eq!(
        rejection(plan_import(&with_url, owned)),
        ("Article URL taken already exists".to_string(), None)
    );
    // A deletion does not look at the address.
    with_url.id = Some(9);
    with_url.action = Some(1);
    assert!(matches!(plan_import(&with_url, owned), ImportStep::Delete(9)));
}

#[test]
fn import_errors_are_reported_by_kind() {
    assert_eq!(ImportError::IOError.to_string(), "IO error");
    assert_eq!(ImportError::ParseError("line 3".to_string()).to_string(), "Parse error");
    let status: JsonStatus = ImportError::ParseError("line 3".to_string()).into();
    assert_eq!(status.status, "error");
    assert_eq!(status.message, "Parse error");
    assert_eq!(status.id, None);
}
