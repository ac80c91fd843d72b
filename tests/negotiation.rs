use mau::{negotiate, ContextConfiguration, TriedConfigurations};

fn levels(tried: &TriedConfigurations) -> Vec<u16> {
    tried.0.iter().map(|c| c.msaa).collect()
}

#[test]
fn platform_supporting_level_two_succeeds_there() {
    let result = negotiate(|msaa| {
        if msaa > 2 {
            Err(format!("{} samples unsupported", msaa))
        } else {
            Ok(msaa * 10)
        }
    });
    let negotiated = match result {
        Ok(n) => n,
        Err(_) => panic!("negotiation failed"),
    };
    assert_eq!(negotiated.msaa, 2);
    assert_eq!(negotiated.context, 20);
    assert_eq!(levels(&negotiated.tried), vec![8, 4]);
    assert_eq!(negotiated.tried.0[0].error, "8 samples unsupported");
    assert_eq!(negotiated.tried.0[1].error, "4 samples unsupported");
}

#[test]
fn platform_supporting_highest_level_records_nothing() {
    let result = negotiate(|msaa| Ok::<u16, String>(msaa));
    let negotiated = match result {
        Ok(n) => n,
        Err(_) => panic!("negotiation failed"),
    };
    assert_eq!(negotiated.msaa, 8);
    assert!(negotiated.tried.0.is_empty());
}

#[test]
fn platform_supporting_only_level_zero_tries_every_level() {
    let result = negotiate(|msaa| if msaa == 0 { Ok(()) } else { Err(String::from("no")) });
    let negotiated = match result {
        Ok(n) => n,
        Err(_) => panic!("negotiation failed"),
    };
    assert_eq!(negotiated.msaa, 0);
    assert_eq!(levels(&negotiated.tried), vec![8, 4, 2, 1]);
}

#[test]
fn every_level_refused_reports_each_attempt_in_order() {
    let result = negotiate(|msaa| Err::<(), String>(format!("refused {}", msaa)));
    let tried = match result {
        Ok(_) => panic!("negotiation succeeded"),
        Err(t) => t,
    };
    assert_eq!(levels(&tried), vec![8, 4, 2, 1, 0]);
    let errors: Vec<&str> = tried.0.iter().map(|c| c.error.as_str()).collect();
    assert_eq!(errors, vec!["refused 8", "refused 4", "refused 2", "refused 1", "refused 0"]);
}

#[test]
fn describe_lists_each_attempt_on_a_line() {
    let tried = TriedConfigurations(vec![
        ContextConfiguration { msaa: 8, error: String::from("no pixel format") },
        ContextConfiguration { msaa: 0, error: String::from("no context") },
    ]);
    assert_eq!(
        tried.describe(),
        "- MSAA: 8, failed with 'no pixel format'\n- MSAA: 0, failed with 'no context'\n"
    );
}

#[test]
fn describe_writes_multi_digit_levels() {
    let tried = TriedConfigurations(vec![
        ContextConfiguration { msaa: 16, error: String::new() },
        ContextConfiguration { msaa: 65535, error: String::from("x") },
    ]);
    assert_eq!(tried.describe(), "- MSAA: 16, failed with ''\n- MSAA: 65535, failed with 'x'\n");
}

#[test]
fn describe_of_no_attempts_is_empty() {
    assert_eq!(TriedConfigurations(Vec::new()).describe(), "");
}
