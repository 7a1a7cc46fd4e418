use enigma_server::service::experiment::{
    report_text, Classing, Experiment, Interval, UserError, Variance, Violation,
};
use std::collections::HashMap;

fn text(n: usize) -> String {
    "x".repeat(n)
}

fn variance(weight: i32) -> Variance {
    Variance {
        group_name: "control".to_string(),
        description: "the arm that changes nothing".to_string(),
        indicator: "button-colour".to_string(),
        weight,
        values: HashMap::new(),
    }
}

fn experiment(name: &str, description: &str, variances: Vec<Variance>) -> Experiment {
    Experiment {
        id: None,
        name: name.to_string(),
        description: description.to_string(),
        active_interval: None,
        variances,
        classing: Classing { strategy: "random".to_string(), persistent_mode: "sticky".to_string() },
        owner: None,
        tenant_id: "t1".to_string(),
        created_at: None,
        updated_at: None,
        deleted_at: None,
    }
}

#[test]
fn name_of_three_characters_fails_naming_the_name() {
    let e = experiment("abc", &text(20), vec![variance(50)]);
    assert_eq!(e.check(), vec![Violation::Name]);
    match e.validate() {
        Err(UserError::ValidationError { message }) => {
            assert_eq!(message, "name: must have length between 4 - 100");
        }
        Ok(()) => panic!("a name of three characters passed"),
    }
}

#[test]
fn weight_of_150_fails() {
    let e = experiment(&text(10), &text(20), vec![variance(150)]);
    assert_eq!(e.check(), vec![Violation::VarianceWeight(0)]);
    assert_eq!(
        e.validate(),
        Err(UserError::ValidationError {
            message: "variances[0].weight: value must bound between 0 - 100".to_string()
        })
    );
}

#[test]
fn experiment_within_all_bounds_passes() {
    let e = experiment(&text(10), &text(20), vec![variance(50)]);
    assert_eq!(e.check(), vec![]);
    assert_eq!(e.validate(), Ok(()));
}

#[test]
fn every_violation_is_reported_in_order() {
    let mut bad = variance(-1);
    bad.group_name = String::new();
    bad.description = text(501);
    bad.indicator = text(65);
    let e = experiment("abc", &text(501), vec![variance(100), bad]);
    assert_eq!(
        e.check(),
        vec![
            Violation::Name,
            Violation::Description,
            Violation::VarianceGroupName(1),
            Violation::VarianceDescription(1),
            Violation::VarianceIndicator(1),
            Violation::VarianceWeight(1),
        ]
    );
    let expected = "name: must have length between 4 - 100\n\
                    description: must have length atmost 500\n\
                    variances[1].group_name: must have length between 1 - 100\n\
                    variances[1].description: must have length atmost 500\n\
                    variances[1].indicator: must have length between 1 - 64\n\
                    variances[1].weight: value must bound between 0 - 100";
    assert_eq!(e.validate(), Err(UserError::ValidationError { message: expected.to_string() }));
}

#[test]
fn name_bounds_are_inclusive() {
    assert_eq!(experiment(&text(4), "", vec![]).validate(), Ok(()));
    assert_eq!(experiment(&text(100), "", vec![]).validate(), Ok(()));
    assert_eq!(experiment(&text(3), "", vec![]).check(), vec![Violation::Name]);
    assert_eq!(experiment(&text(101), "", vec![]).check(), vec![Violation::Name]);
    assert_eq!(experiment("", "", vec![]).check(), vec![Violation::Name]);
}

#[test]
fn description_bound_is_inclusive() {
    assert_eq!(experiment(&text(4), &text(500), vec![]).validate(), Ok(()));
    assert_eq!(experiment(&text(4), &text(501), vec![]).check(), vec![Violation::Description]);
}

#[test]
fn variance_bounds_are_inclusive() {
    let mut v = variance(0);
    v.group_name = text(1);
    v.description = text(500);
    v.indicator = text(1);
    assert_eq!(v.check_at(0), vec![]);
    v.weight = 100;
    v.group_name = text(100);
    v.indicator = text(64);
    assert_eq!(v.check_at(0), vec![]);
    v.group_name = text(101);
    assert_eq!(v.check_at(3), vec![Violation::VarianceGroupName(3)]);
    v.group_name = text(100);
    v.indicator = String::new();
    assert_eq!(v.check_at(3), vec![Violation::VarianceIndicator(3)]);
    v.indicator = text(65);
    assert_eq!(v.check_at(3), vec![Violation::VarianceIndicator(3)]);
    v.indicator = text(64);
    v.weight = 101;
    assert_eq!(v.check_at(3), vec![Violation::VarianceWeight(3)]);
    v.weight = -1;
    assert_eq!(v.check_at(3), vec![Violation::VarianceWeight(3)]);
}

#[test]
fn lengths_count_characters_not_bytes() {
    let four = "äöüß";
    assert_eq!(four.len(), 8);
    assert_eq!(experiment(four, "", vec![]).validate(), Ok(()));
    let hundred: String = "é".repeat(100);
    assert_eq!(experiment(&hundred, "", vec![]).validate(), Ok(()));
    let three = "äöü";
    assert_eq!(experiment(three, "", vec![]).check(), vec![Violation::Name]);
}

#[test]
fn paths_number_the_variances_in_decimal() {
    assert_eq!(Violation::Name.path(), "name");
    assert_eq!(Violation::Description.path(), "description");
    assert_eq!(Violation::VarianceGroupName(0).path(), "variances[0].group_name");
    assert_eq!(Violation::VarianceDescription(7).path(), "variances[7].description");
    assert_eq!(Violation::VarianceIndicator(10).path(), "variances[10].indicator");
    assert_eq!(Violation::VarianceWeight(1234567890).path(), "variances[1234567890].weight");
    assert_eq!(
        Violation::VarianceWeight(12).line(),
        "variances[12].weight: value must bound between 0 - 100"
    );
}

#[test]
fn report_of_nothing_is_empty() {
    assert_eq!(report_text(&vec![]), "");
    assert_eq!(report_text(&vec![Violation::Name]), "name: must have length between 4 - 100");
}

#[test]
fn eleventh_variance_is_named_by_its_position() {
    let mut variances: Vec<Variance> = (0..11).map(|_| variance(50)).collect();
    variances[10].weight = 150;
    let e = experiment(&text(10), &text(20), variances);
    assert_eq!(e.check(), vec![Violation::VarianceWeight(10)]);
}

#[test]
fn user_error_has_its_code_and_message() {
    let e = UserError::ValidationError { message: "name: too short".to_string() };
    assert_eq!(e.code(), "validation_error");
    assert_eq!(e.message(), "name: too short");
}

#[test]
fn an_interval_may_end_before_it_begins() {
    let mut e = experiment(&text(10), &text(20), vec![variance(50)]);
    e.active_interval = Some(Interval(Some(2_000), Some(1_000)));
    assert_eq!(e.validate(), Ok(()));
    e.active_interval = Some(Interval(None, Some(1_000)));
    assert_eq!(e.validate(), Ok(()));
    e.active_interval = Some(Interval(None, None));
    assert_eq!(e.validate(), Ok(()));
}

#[test]
fn weights_need_not_add_up_to_a_hundred() {
    let e = experiment(&text(10), &text(20), vec![variance(100), variance(100), variance(0)]);
    assert_eq!(e.validate(), Ok(()));
    let none = experiment(&text(10), &text(20), vec![]);
    assert_eq!(none.validate(), Ok(()));
}
