use pokeproxy::fetch::{Document, FetchError};
use pokeproxy::identifier::validate_pokemon_identifier;
use pokeproxy::json::Json;
use pokeproxy::random::{
    check_count, get_n_random, identifiers_for, random_response, sample_ids, InvalidCount,
    RandomParams, RandomStep, MAX_POKEMON_COUNT, MAX_RANDOM_COUNT,
};
use pokeproxy::record::CreatureRecord;
use pokeproxy::response::{ApiBody, ApiResponse};

fn record_named(name: &str) -> CreatureRecord {
    let primary = Json::Object(vec![(String::from("name"), Json::Text(String::from(name)))]);
    CreatureRecord::assemble(&primary, &Json::Null)
}

fn identifiers_of(step: RandomStep) -> Vec<String> {
    match step {
        RandomStep::FanOut { identifiers } => identifiers,
        RandomStep::Respond(_) => panic!("the request was refused"),
    }
}

#[test]
fn the_bounds() {
    assert_eq!(MAX_POKEMON_COUNT, 1025);
    assert_eq!(MAX_RANDOM_COUNT, 15);
}

#[test]
fn twenty_creatures_are_refused() {
    assert_eq!(
        get_n_random(&RandomParams { n: 20 }),
        RandomStep::Respond(ApiResponse {
            status: 400,
            cache_control: None,
            body: ApiBody::Text(String::from("n must be less than 15")),
        })
    );
}

#[test]
fn every_count_above_fifteen_is_refused_before_any_fetch() {
    for n in [16, 17, 100, 1025, i32::MAX] {
        match get_n_random(&RandomParams { n }) {
            RandomStep::Respond(response) => {
                assert_eq!(response.status, 400);
                assert_eq!(response.body, ApiBody::Text(String::from("n must be less than 15")));
            }
            RandomStep::FanOut { .. } => panic!("{n} creatures were not refused"),
        }
    }
}

#[test]
fn fifteen_creatures_are_granted() {
    assert_eq!(identifiers_of(get_n_random(&RandomParams { n: 15 })).len(), 15);
}

#[test]
fn as_many_identifiers_as_creatures_asked_for() {
    for n in 0..=15 {
        assert_eq!(identifiers_of(get_n_random(&RandomParams { n })).len(), n as usize);
    }
}

#[test]
fn no_creatures_for_zero_or_less() {
    for n in [0, -1, -15, i32::MIN] {
        assert!(identifiers_of(get_n_random(&RandomParams { n })).is_empty());
    }
}

#[test]
fn sampled_identifiers_name_ids_in_range() {
    for _ in 0..40 {
        for identifier in identifiers_of(get_n_random(&RandomParams { n: 15 })) {
            let id: u32 = identifier.parse().unwrap();
            assert!(1 <= id && id <= 1025, "{identifier}");
            assert_eq!(identifier, id.to_string());
        }
    }
}

#[test]
fn sampled_identifiers_pass_validation() {
    for identifier in identifiers_of(get_n_random(&RandomParams { n: 15 })) {
        assert_eq!(validate_pokemon_identifier(&identifier), Ok(()));
    }
}

#[test]
fn sampled_ids_lie_in_range_and_vary() {
    let ids = sample_ids(600);
    assert_eq!(ids.len(), 600);
    assert!(ids.iter().all(|id| 1 <= *id && *id <= 1025));
    assert!(ids.iter().any(|id| *id != ids[0]));
    assert!(ids.iter().any(|id| *id != 1));
    assert!(ids.iter().any(|id| *id != 1025));
    assert!(sample_ids(0).is_empty());
}

#[test]
fn count_is_checked_against_fifteen() {
    assert_eq!(check_count(16), Err(InvalidCount));
    assert_eq!(check_count(i32::MAX), Err(InvalidCount));
    assert_eq!(check_count(15), Ok(15));
    assert_eq!(check_count(1), Ok(1));
    assert_eq!(check_count(0), Ok(0));
    assert_eq!(check_count(-1), Ok(0));
    assert_eq!(check_count(i32::MIN), Ok(0));
    assert_eq!(InvalidCount.message(), "n must be less than 15");
}

#[test]
fn identifiers_are_the_ids_in_decimal() {
    assert_eq!(
        identifiers_for(&vec![1, 25, 1025, 25, 7, 100]),
        vec!["1", "25", "1025", "25", "7", "100"]
    );
    assert_eq!(identifiers_for(&Vec::new()), Vec::<String>::new());
}

#[test]
fn response_holds_the_records_of_the_fetches_that_succeeded() {
    let results = vec![
        Ok(record_named("a")),
        Err(FetchError::NotFound),
        Ok(record_named("b")),
        Err(FetchError::MalformedUpstreamResponse(Document::Related)),
        Err(FetchError::RelatedNotFound),
        Ok(record_named("a")),
    ];
    assert_eq!(
        random_response(results),
        ApiResponse {
            status: 200,
            cache_control: None,
            body: ApiBody::Records(vec![record_named("a"), record_named("b"), record_named("a")]),
        }
    );
}

#[test]
fn response_is_no_error_when_every_fetch_failed() {
    let results = vec![
        Err(FetchError::NotFound),
        Err(FetchError::MissingRelatedReference),
        Err(FetchError::NotFound),
    ];
    assert_eq!(
        random_response(results),
        ApiResponse { status: 200, cache_control: None, body: ApiBody::Records(Vec::new()) }
    );
}

#[test]
fn response_to_no_fetches_is_an_empty_list() {
    assert_eq!(
        random_response(Vec::new()),
        ApiResponse { status: 200, cache_control: None, body: ApiBody::Records(Vec::new()) }
    );
}

#[test]
fn response_never_holds_more_records_than_fetches() {
    for good in 0..=15usize {
        let mut results = Vec::new();
        for i in 0..15usize {
            if i < good {
                results.push(Ok(record_named("x")));
            } else {
                results.push(Err(FetchError::NotFound));
            }
        }
        match random_response(results).body {
            ApiBody::Records(records) => assert_eq!(records.len(), good),
            _ => panic!("the answer to a random sample is a list of records"),
        }
    }
}

#[test]
fn response_holds_the_same_records_whatever_the_order_of_the_results() {
    let names = |response: ApiResponse| -> Vec<Json> {
        match response.body {
            ApiBody::Records(records) => {
                let mut names: Vec<Json> = records.into_iter().map(|record| record.name).collect();
                names.sort_by_key(|name| name.as_str().map(String::from));
                names
            }
            _ => panic!("the answer to a random sample is a list of records"),
        }
    };
    let forward = vec![
        Ok(record_named("a")),
        Err(FetchError::NotFound),
        Ok(record_named("b")),
        Ok(record_named("c")),
    ];
    let backward = vec![
        Ok(record_named("c")),
        Ok(record_named("b")),
        Err(FetchError::NotFound),
        Ok(record_named("a")),
    ];
    assert_eq!(names(random_response(forward)), names(random_response(backward)));
}
