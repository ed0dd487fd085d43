//! Tests for the structured result model and its builders.

use bitbelay::analyses::avalanche::sac;
use bitbelay::analyses::chi_squared::goodness_of_fit;
use bitbelay::analyses::correlation::bitwise;
use bitbelay::analyses::performance::speed;
use bitbelay::report;
use bitbelay::report::Config;
use bitbelay::report::section;
use bitbelay::report::section::test::Module;
use bitbelay::report::section::test::module::Verdict;

fn sample_module() -> Module {
    Module::new(Verdict::Inconclusive, String::from("Baz"), None, None)
}

fn sample_section() -> section::Test {
    section::test::Builder::new()
        .title(String::from("Foo"))
        .unwrap()
        .description(String::from("Bar"))
        .unwrap()
        .push_module(sample_module())
        .try_build()
        .unwrap()
}

#[test]
fn module_carries_its_fields() {
    let module = Module::new(
        Verdict::Pass,
        String::from("Name"),
        Some(String::from("Value")),
        Some(String::from("Details")),
    );
    assert_eq!(module.result(), &Verdict::Pass);
    assert_eq!(module.name(), "Name");
    assert_eq!(module.value(), &Some(String::from("Value")));
    assert_eq!(module.details(), &Some(String::from("Details")));
}

#[test]
fn section_builder_builds_in_order() {
    let section = sample_section();
    assert_eq!(section.title(), "Foo");
    assert_eq!(section.description(), "Bar");
    assert_eq!(section.modules().len(), 1);
    assert_eq!(section.modules()[0], sample_module());
}

#[test]
fn section_builder_rejects_duplicate_fields() {
    let builder = section::test::Builder::new().title(String::from("Foo")).unwrap();
    assert_eq!(
        builder.title(String::from("Again")).unwrap_err(),
        section::test::builder::Error::Multiple(section::test::builder::MultipleError::Title)
    );

    let builder = section::test::Builder::new().description(String::from("Bar")).unwrap();
    assert_eq!(
        builder.description(String::from("Again")).unwrap_err(),
        section::test::builder::Error::Multiple(section::test::builder::MultipleError::Description)
    );
}

#[test]
fn section_builder_names_missing_fields() {
    assert_eq!(
        section::test::Builder::new().try_build().unwrap_err(),
        section::test::builder::Error::Missing(section::test::builder::MissingError::Title)
    );
    assert_eq!(
        section::test::Builder::new().title(String::from("Foo")).unwrap().try_build().unwrap_err(),
        section::test::builder::Error::Missing(section::test::builder::MissingError::Description)
    );
    assert_eq!(
        section::test::Builder::new()
            .title(String::from("Foo"))
            .unwrap()
            .description(String::from("Bar"))
            .unwrap()
            .try_build()
            .unwrap_err(),
        section::test::builder::Error::Missing(section::test::builder::MissingError::Modules)
    );
}

#[test]
fn report_builder_builds_and_validates() {
    let report = report::Builder::new()
        .title(String::from("Hello, world!"))
        .unwrap()
        .push_test_result(sample_section())
        .try_build()
        .unwrap();

    assert_eq!(report.title(), "Hello, world!");
    assert_eq!(report.sections().len(), 1);
    let section = report.sections()[0].as_test_result().unwrap();
    assert_eq!(section, &sample_section());
    let date = report.date();
    assert!(1 <= date.month && date.month <= 12);
    assert!(1 <= date.day && date.day <= 31);

    assert_eq!(
        report::Builder::new().try_build().unwrap_err(),
        report::builder::Error::Missing(report::builder::MissingError::Title)
    );
    assert_eq!(
        report::Builder::new().title(String::from("T")).unwrap().try_build().unwrap_err(),
        report::builder::Error::Missing(report::builder::MissingError::Sections)
    );
    let builder = report::Builder::new().title(String::from("T")).unwrap();
    assert_eq!(
        builder.title(String::from("Again")).unwrap_err(),
        report::builder::Error::Multiple(report::builder::MultipleError::Title)
    );
}

#[test]
fn report_base_sections_are_complete() {
    let section = sac::get_report_base().push_module(sample_module()).try_build().unwrap();
    assert_eq!(section.title(), "Strict Avalanche Criterion");

    let section = goodness_of_fit::get_report_base("ASCII Alphanumeric")
        .push_module(sample_module())
        .try_build()
        .unwrap();
    assert_eq!(section.title(), "Goodness of Fit / ASCII Alphanumeric");

    let section = bitwise::get_report_base().push_module(sample_module()).try_build().unwrap();
    assert_eq!(section.title(), "Bitwise Pearson Correlation");

    let section = speed::get_report_base().push_module(sample_module()).try_build().unwrap();
    assert_eq!(section.title(), "Speed Test");
}

#[test]
fn config_defaults() {
    let config = Config::default();
    assert_eq!(config.width(), 80);
    assert!(config.write_test_result_descriptions());
}
