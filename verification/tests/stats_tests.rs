use blog_backend::stats::ip_location::{geo_info, remove_dash, GeoError, GeoInfo, GeoRecord};
use blog_backend::stats::{
    geo_info_or_empty, insert_result_of, pseudonymize, BaseArticleStat, InsertOutcome,
    ServiceState, StatsError, StatsMessage, StatsService, StatsWorker,
};
use blog_backend::stats::pseudonymizer::WordlistPseudoyimizer;

fn fixed_wordlist() -> Vec<u8> {
    let mut text = String::new();
    for i in 1..=16 {
        text.push_str(&format!("Line {}\n", i));
    }
    text.into_bytes()
}

fn words() -> Vec<u8> {
    let mut text = String::new();
    for i in 1..=16 {
        text.push_str(&format!("word {}\n", i));
    }
    text.into_bytes()
}

fn visit(article_id: i32) -> BaseArticleStat {
    BaseArticleStat {
        article_id,
        client_ua: "Firefox 28".to_string(),
        client_ip: "8.8.8.8".to_string(),
    }
}

fn open(capacity: usize) -> (StatsService, StatsWorker) {
    let codebook = words();
    StatsService::open("words.txt", Some(&codebook[..]), true, capacity).unwrap()
}

fn article_id(message: Option<StatsMessage>) -> i32 {
    match message {
        Some(StatsMessage::InsertArticleStats(stat)) => stat.article_id,
        other => panic!("no visit: {:?}", other),
    }
}

#[test]
fn open_fails_without_codebook_or_geo_database() {
    let codebook = words();
    assert_eq!(
        StatsService::open("w", None, true, 3).err(),
        Some(StatsError::CodebookUnreadable)
    );
    assert_eq!(
        StatsService::open("w", Some(&b""[..]), true, 3).err(),
        Some(StatsError::EmptyCodebook)
    );
    assert_eq!(
        StatsService::open("w", Some(&codebook[..]), false, 3).err(),
        Some(StatsError::GeoDatabaseUnreadable)
    );
    // The codebook is looked at first.
    assert_eq!(
        StatsService::open("w", None, false, 3).err(),
        Some(StatsError::CodebookUnreadable)
    );
    let (service, worker) = StatsService::open("w", Some(&codebook[..]), true, 3).unwrap();
    assert_eq!(service.state(), ServiceState::Running);
    assert_eq!(service.len(), 0);
    assert_eq!(worker.pseudonymizer.line_count(), 16);
}

#[test]
fn full_queue_drops_and_still_succeeds() {
    let (mut service, _worker) = open(3);
    for i in 0..3 {
        assert_eq!(service.submit(visit(i)), InsertOutcome::Enqueued);
    }
    assert_eq!(service.submit(visit(3)), InsertOutcome::Dropped);
    assert_eq!(service.insert_article_stats(visit(4)), Ok(()));
    assert_eq!(service.len(), 3);
    // The visits that found room come out in order; the dropped ones never.
    assert_eq!(article_id(service.receive()), 0);
    assert_eq!(service.insert_article_stats(visit(5)), Ok(()));
    assert_eq!(article_id(service.receive()), 1);
    assert_eq!(article_id(service.receive()), 2);
    assert_eq!(article_id(service.receive()), 5);
    assert!(service.receive().is_none());
}

#[test]
fn queue_without_room_drops_everything() {
    let (mut service, _worker) = open(0);
    assert_eq!(service.insert_article_stats(visit(1)), Ok(()));
    assert_eq!(service.len(), 0);
    assert!(service.receive().is_none());
}

#[test]
fn close_drains_before_the_worker_stops() {
    let (mut service, _worker) = open(5);
    for i in 0..4 {
        assert_eq!(service.insert_article_stats(visit(i)), Ok(()));
    }
    service.close();
    assert_eq!(service.state(), ServiceState::Closing);
    // A visit that comes while closing is dropped, and is no failure.
    assert_eq!(service.submit(visit(9)), InsertOutcome::Dropped);
    for i in 0..4 {
        assert_eq!(article_id(service.receive()), i);
        assert_eq!(service.state(), ServiceState::Closing);
    }
    assert!(matches!(service.receive(), Some(StatsMessage::Close)));
    assert_eq!(service.state(), ServiceState::Terminated);
    assert_eq!(service.insert_article_stats(visit(7)), Err(StatsError::PipelineDead));
    assert_eq!(service.submit(visit(7)), InsertOutcome::PipelineDead);
    assert!(matches!(service.receive(), Some(StatsMessage::Close)));
    // No way leads back.
    service.close();
    assert_eq!(service.state(), ServiceState::Terminated);
}

#[test]
fn terminate_loses_what_waited() {
    let (mut service, _worker) = open(5);
    assert_eq!(service.insert_article_stats(visit(1)), Ok(()));
    service.terminate();
    assert_eq!(service.state(), ServiceState::Terminated);
    assert_eq!(service.len(), 0);
    assert_eq!(service.insert_article_stats(visit(2)), Err(StatsError::PipelineDead));
}

#[test]
fn insert_result_surfaces_only_a_dead_pipeline() {
    assert_eq!(insert_result_of(InsertOutcome::Enqueued), Ok(()));
    assert_eq!(insert_result_of(InsertOutcome::Dropped), Ok(()));
    assert_eq!(insert_result_of(InsertOutcome::PipelineDead), Err(StatsError::PipelineDead));
}

#[test]
fn enrich_builds_the_record() {
    let codebook = words();
    let (_service, mut worker) = open(3);
    let event = BaseArticleStat {
        article_id: 120,
        client_ua: "test".to_string(),
        client_ip: "192.168.1.5".to_string(),
    };
    assert!(worker.needs_codebook(&event));
    let place = GeoInfo {
        country: "Belgium".to_string(),
        region: "Liege".to_string(),
        city: "Liege".to_string(),
    };
    let record = worker.enrich(event, Ok(place), Some(&codebook[..]));
    assert_eq!(record.id, -1);
    assert_eq!(record.article_id, 120);
    // "test" selects line 11 of 16, and the pseudonym gets a capital letter.
    assert_eq!(record.pseudo_ua, "Word 11");
    assert!(record.pseudo_ip.starts_with("Word "));
    assert_eq!(record.client_ua, "test");
    assert_eq!(record.client_ip, "192.168.1");
    assert_eq!(record.date, None);
    assert_eq!((record.country.as_str(), record.region.as_str(), record.city.as_str()), ("Belgium", "Liege", "Liege"));
    assert_eq!(worker.pseudonymizer.cached(), 2);
    let again = BaseArticleStat {
        article_id: 121,
        client_ua: "test".to_string(),
        client_ip: "192.168.1.5".to_string(),
    };
    assert!(!worker.needs_codebook(&again));
    let second = worker.enrich(again, Err(GeoError::LookupFailed), None);
    assert_eq!(second.pseudo_ua, record.pseudo_ua);
    assert_eq!(second.pseudo_ip, record.pseudo_ip);
    assert_eq!((second.country.as_str(), second.region.as_str(), second.city.as_str()), ("", "", ""));
}

#[test]
fn enrich_survives_a_failing_pseudonymizer() {
    let (_service, mut worker) = open(3);
    let record = worker.enrich(visit(1), Err(GeoError::LookupFailed), None);
    assert_eq!(record.pseudo_ua, "");
    assert_eq!(record.pseudo_ip, "");
    assert_eq!(record.client_ua, "Firefox 28");
    assert_eq!(record.client_ip, "8.8.8");
    assert_eq!(worker.pseudonymizer.cached(), 0);
}

#[test]
fn stats_pseudonymize_capitalizes_or_gives_empty() {
    let codebook = words();
    let mut sut = WordlistPseudoyimizer::open("w", Some(&codebook[..])).unwrap();
    assert_eq!(pseudonymize(&mut sut, "test", Some(&codebook[..])), "Word 11");
    assert_eq!(pseudonymize(&mut sut, "other", None), "");
    let fixture = fixed_wordlist();
    let mut sut = WordlistPseudoyimizer::open("w", Some(&fixture[..])).unwrap();
    assert_eq!(pseudonymize(&mut sut, "test", Some(&fixture[..])), "Line 11");
}

#[test]
fn remove_dash_clears_a_single_dash() {
    assert_eq!(remove_dash("-".to_string()), "");
    assert_eq!(remove_dash("--".to_string()), "--");
    assert_eq!(remove_dash("".to_string()), "");
    assert_eq!(remove_dash("Liege".to_string()), "Liege");
    assert_eq!(remove_dash("–".to_string()), "–");
}

#[test]
fn geo_info_cleans_the_record() {
    let info = geo_info(Some(GeoRecord {
        country: Some("Belgium".to_string()),
        region: Some("-".to_string()),
        city: None,
    }))
    .unwrap();
    assert_eq!((info.country.as_str(), info.region.as_str(), info.city.as_str()), ("Belgium", "", ""));
    assert_eq!(geo_info(None).err(), Some(GeoError::LookupFailed));
    let place = geo_info_or_empty(Err(GeoError::LookupFailed));
    assert_eq!((place.country.as_str(), place.region.as_str(), place.city.as_str()), ("", "", ""));
    let place = geo_info_or_empty(Ok(info));
    assert_eq!(place.country, "Belgium");
}
