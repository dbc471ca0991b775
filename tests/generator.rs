use wiki::generators::{GeneratorError, GeneratorStream, Page, Step};

type Gen = GeneratorStream<&'static str, Vec<(String, String)>, String>;

/// Drives a generator against scripted responses; records each request's
/// continuation and every element yielded.
fn run(
    mut script: Vec<Result<Page<&'static str, Vec<(String, String)>>, String>>,
    limit: u32,
) -> (Vec<Option<Vec<(String, String)>>>, Vec<Result<&'static str, GeneratorError<String>>>) {
    script.reverse();
    let mut g: Gen = GeneratorStream::new(limit);
    let mut requests = Vec::new();
    let mut out = Vec::new();
    for _ in 0..100 {
        match g.poll_next() {
            Step::Request(c) => {
                requests.push(c);
                let r = script.pop().expect("generator asked for more pages than scripted");
                g.receive(r);
            }
            Step::Item(x) => out.push(Ok(x)),
            Step::Error(e) => out.push(Err(e)),
            Step::End => break,
        }
    }
    (requests, out)
}

fn cont(k: &str, v: &str) -> Vec<(String, String)> {
    vec![(k.to_string(), v.to_string())]
}

#[test]
fn single_page_yields_its_items_in_order() {
    let (reqs, out) = run(vec![Ok(Page { items: vec!["i1", "i2"], cont: None })], 5);
    assert_eq!(reqs, vec![None]);
    assert_eq!(out.len(), 2);
    assert!(matches!(out[0], Ok("i1")));
    assert!(matches!(out[1], Ok("i2")));
}

#[test]
fn empty_page_with_continuation_goes_on() {
    let (reqs, out) = run(
        vec![
            Ok(Page { items: vec![], cont: Some(cont("x", "1")) }),
            Ok(Page { items: vec!["i3"], cont: None }),
        ],
        5,
    );
    assert_eq!(reqs, vec![None, Some(cont("x", "1"))]);
    assert_eq!(out.len(), 1);
    assert!(matches!(out[0], Ok("i3")));
}

#[test]
fn continuation_follows_the_items() {
    let (reqs, out) = run(
        vec![
            Ok(Page { items: vec!["a", "b"], cont: Some(cont("c", "2")) }),
            Ok(Page { items: vec!["c"], cont: None }),
        ],
        5,
    );
    assert_eq!(reqs, vec![None, Some(cont("c", "2"))]);
    let items: Vec<&str> = out.into_iter().map(|r| r.unwrap()).collect();
    assert_eq!(items, vec!["a", "b", "c"]);
}

#[test]
fn failure_on_second_page_yields_one_error_then_nothing() {
    let (reqs, out) = run(
        vec![
            Ok(Page { items: vec!["i1"], cont: Some(cont("x", "1")) }),
            Err("connection reset".to_string()),
        ],
        5,
    );
    assert_eq!(reqs.len(), 2);
    assert_eq!(out.len(), 2);
    assert!(matches!(out[0], Ok("i1")));
    assert!(matches!(&out[1], Err(GeneratorError::Request(e)) if e == "connection reset"));
}

#[test]
fn done_stays_done() {
    let mut g: Gen = GeneratorStream::new(1);
    assert!(matches!(g.poll_next(), Step::Request(None)));
    assert!(g.is_waiting());
    g.receive(Ok(Page { items: vec![], cont: None }));
    assert!(matches!(g.poll_next(), Step::End));
    assert!(matches!(g.poll_next(), Step::End));
}

#[test]
fn endless_empty_pages_are_cut_off() {
    let script = (0..4).map(|i| Ok(Page { items: vec![], cont: Some(cont("n", &i.to_string())) })).collect();
    let (reqs, out) = run(script, 2);
    assert_eq!(reqs.len(), 3);
    assert_eq!(out.len(), 1);
    assert!(matches!(out[0], Err(GeneratorError::NoProgress)));
}
