use rustracer::stats::{IntDistribution, StatAccumulator, StatValue};

#[test]
fn counters_accumulate() {
    let mut acc = StatAccumulator::new();
    acc.report_counter(&"Scene/Materials created".to_owned(), 5);
    acc.report_counter(&"Scene/Materials created".to_owned(), 7);
    acc.report_counter(&"Integrator/Camera rays traced".to_owned(), 0);

    let entries = acc.entries();
    // the zero counter is left out of the report
    assert_eq!(entries.len(), 1);
    assert_eq!(entries[0].category, "Scene".to_owned());
    assert_eq!(entries[0].title, "Materials created".to_owned());
    assert_eq!(entries[0].value, StatValue::Counter(12));
}

#[test]
fn counters_saturate_at_the_top() {
    let mut acc = StatAccumulator::new();
    acc.report_counter(&"Memory/Huge".to_owned(), u64::MAX);
    acc.report_counter(&"Memory/Huge".to_owned(), 5);
    let entries = acc.entries();
    assert_eq!(entries[0].value, StatValue::Counter(u64::MAX));
}

#[test]
fn distributions_merge() {
    let mut acc = StatAccumulator::new();
    acc.report_int_distribution(&"BVH/Primitives per leaf node".to_owned(), 10, 2, 1, 9);
    acc.report_int_distribution(&"BVH/Primitives per leaf node".to_owned(), 5, 1, 0, 20);
    acc.report_int_distribution(&"BVH/Empty".to_owned(), 0, 0, 3, 3);

    let entries = acc.entries();
    // the distribution that never counted anything is left out
    assert_eq!(entries.len(), 1);
    assert_eq!(entries[0].category, "BVH".to_owned());
    assert_eq!(entries[0].title, "Primitives per leaf node".to_owned());
    assert_eq!(
        entries[0].value,
        StatValue::Distribution(IntDistribution { sum: 15, count: 3, min: 0, max: 20 })
    );
}

#[test]
fn fractions_merge_and_zero_denominators_hide() {
    let mut acc = StatAccumulator::new();
    acc.report_percentage(&"Intersections/Regular ray intersection tests".to_owned(), 3, 10);
    acc.report_percentage(&"Intersections/Regular ray intersection tests".to_owned(), 2, 5);
    acc.report_percentage(&"Intersections/Never".to_owned(), 4, 0);
    acc.report_ratio(&"Memory/Arena allocations".to_owned(), 8, 2);

    let entries = acc.entries();
    assert_eq!(entries.len(), 2);
    assert_eq!(entries[0].value, StatValue::Percentage(5, 15));
    assert_eq!(entries[1].value, StatValue::Ratio(8, 2));
}

#[test]
fn report_tables_keep_their_order() {
    let mut acc = StatAccumulator::default();
    acc.report_ratio(&"Z/r".to_owned(), 1, 1);
    acc.report_memory_counter(&"Z/m".to_owned(), 1);
    acc.report_counter(&"Z/c".to_owned(), 1);
    acc.report_counter(&"A/c2".to_owned(), 2);

    let entries = acc.entries();
    // counters come first (in reporting order), then memory, then ratios
    assert_eq!(entries.len(), 4);
    assert_eq!(entries[0].title, "c".to_owned());
    assert_eq!(entries[0].value, StatValue::Counter(1));
    assert_eq!(entries[1].title, "c2".to_owned());
    assert_eq!(entries[2].value, StatValue::Memory(1));
    assert_eq!(entries[3].value, StatValue::Ratio(1, 1));
}

#[test]
fn category_and_title_split_on_the_slashes() {
    let acc = StatAccumulator::new();
    let name = "Scene/Materials created".to_owned();
    let (category, title) = acc.get_category_and_title(&name);
    assert_eq!(category, "Scene");
    assert_eq!(title, "Materials created");

    let bare = "Materials created".to_owned();
    let (category, title) = acc.get_category_and_title(&bare);
    assert_eq!(category, "");
    assert_eq!(title, "Materials created");

    // only what stands between the first and second slash is the title
    let deep = "a/b/c".to_owned();
    let (category, title) = acc.get_category_and_title(&deep);
    assert_eq!(category, "a");
    assert_eq!(title, "b");

    let trailing = "a/".to_owned();
    let (category, title) = acc.get_category_and_title(&trailing);
    assert_eq!(category, "a");
    assert_eq!(title, "");
}
