use jules_rs::{JulesError, Page, Paginator, Step};

#[derive(Debug, PartialEq)]
enum Seen {
    Fetch(Option<String>),
    Item(u32),
    Failure(u16),
}

fn page(items: &[u32], token: Option<&str>) -> Result<Page<u32>, JulesError> {
    Ok(Page { items: items.to_vec(), next_page_token: token.map(|t| t.to_string()) })
}

fn api_error(status: u16) -> Result<Page<u32>, JulesError> {
    Err(JulesError::Api { status, message: "boom".to_string() })
}

/// Drives a session to its end, answering each fetch with the next scripted
/// outcome.
fn drive(script: Vec<Result<Page<u32>, JulesError>>) -> Vec<Seen> {
    let mut script = script.into_iter();
    let mut pager: Paginator<u32> = Paginator::new(100);
    let mut seen = Vec::new();
    loop {
        match pager.poll() {
            Step::Fetch(c) => {
                seen.push(Seen::Fetch(c));
                let next = script.next().expect("no fetch beyond the script");
                pager.receive(next);
            }
            Step::Item(x) => seen.push(Seen::Item(x)),
            Step::Failure(JulesError::Api { status, .. }) => seen.push(Seen::Failure(status)),
            Step::Failure(e) => panic!("unexpected failure {:?}", e),
            Step::End => break,
        }
        assert!(seen.len() < 1000);
    }
    seen
}

#[test]
fn three_pages_then_end() {
    let seen = drive(vec![
        page(&[1, 2], Some("t1")),
        page(&[3], Some("t2")),
        page(&[4, 5, 6], None),
        page(&[99], None),
    ]);
    assert_eq!(
        seen,
        vec![
            Seen::Fetch(None),
            Seen::Item(1),
            Seen::Item(2),
            Seen::Fetch(Some("t1".to_string())),
            Seen::Item(3),
            Seen::Fetch(Some("t2".to_string())),
            Seen::Item(4),
            Seen::Item(5),
            Seen::Item(6),
        ]
    );
    assert_eq!(seen.iter().filter(|s| matches!(s, Seen::Fetch(_))).count(), 3);
}

#[test]
fn empty_token_ends_like_absent() {
    let seen = drive(vec![page(&[7], Some("")), page(&[99], None)]);
    assert_eq!(seen, vec![Seen::Fetch(None), Seen::Item(7)]);
}

#[test]
fn error_after_first_page_ends_with_one_failure() {
    let seen = drive(vec![page(&[1, 2], Some("t1")), api_error(503), page(&[99], None)]);
    assert_eq!(
        seen,
        vec![
            Seen::Fetch(None),
            Seen::Item(1),
            Seen::Item(2),
            Seen::Fetch(Some("t1".to_string())),
            Seen::Failure(503),
        ]
    );
}

#[test]
fn end_is_final() {
    let mut pager: Paginator<u32> = Paginator::new(10);
    assert!(matches!(pager.poll(), Step::Fetch(None)));
    pager.receive(api_error(500));
    assert!(matches!(pager.poll(), Step::Failure(_)));
    assert!(matches!(pager.poll(), Step::End));
    assert!(matches!(pager.poll(), Step::End));
}

#[test]
fn empty_pages_with_cursor_keep_fetching() {
    let seen = drive(vec![page(&[], Some("a")), page(&[], Some("b")), page(&[8], None)]);
    assert_eq!(
        seen,
        vec![
            Seen::Fetch(None),
            Seen::Fetch(Some("a".to_string())),
            Seen::Fetch(Some("b".to_string())),
            Seen::Item(8),
        ]
    );
}

#[test]
fn polling_before_an_answer_repeats_the_fetch() {
    let mut pager: Paginator<u32> = Paginator::new(10);
    assert!(matches!(pager.poll(), Step::Fetch(None)));
    assert!(matches!(pager.poll(), Step::Fetch(None)));
    pager.receive(page(&[1], None));
    assert!(matches!(pager.poll(), Step::Item(1)));
    pager.receive(page(&[2], None));
    assert!(matches!(pager.poll(), Step::End));
}
