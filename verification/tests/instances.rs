use rustracer::api::{scene_is_fatal, ObjectInstances};
use rustracer::registry::Registry;

#[test]
fn registry_insert_and_redefine() {
    let mut reg: Registry<u32> = Registry::new();
    assert!(!reg.contains(&"marble".to_owned()));
    assert_eq!(reg.get(&"marble".to_owned()), None);

    // a first registration does not replace anything
    assert!(!reg.insert("marble".to_owned(), 7));
    assert!(reg.contains(&"marble".to_owned()));
    assert_eq!(reg.get(&"marble".to_owned()), Some(&7));

    // registering the name again replaces the value, and the flag lets
    // the driver warn about the redefinition
    assert!(reg.insert("marble".to_owned(), 9));
    assert_eq!(reg.get(&"marble".to_owned()), Some(&9));

    assert!(!reg.insert("wood".to_owned(), 1));
    assert_eq!(reg.get(&"marble".to_owned()), Some(&9));
    assert_eq!(reg.get(&"wood".to_owned()), Some(&1));
}

#[test]
fn object_definitions_collect_primitives() {
    // the primitives are the driver's type; numbers stand in for them
    let mut instances: ObjectInstances<u32> = ObjectInstances::new();

    // a shape outside any definition finds no aggregate
    assert!(!instances.add(&"tree".to_owned(), vec![1]));

    assert!(!instances.begin("tree".to_owned()));
    assert_eq!(instances.instance_size(&"tree".to_owned()), Some(0));

    assert!(instances.add(&"tree".to_owned(), vec![10, 11]));
    assert!(instances.add(&"tree".to_owned(), vec![12]));
    assert_eq!(instances.instance_size(&"tree".to_owned()), Some(3));
    assert_eq!(instances.first(&"tree".to_owned()), Some(&10));

    // an unknown name is reported, an empty aggregate is skipped
    assert_eq!(instances.instance_size(&"bush".to_owned()), None);
    assert!(!instances.begin("stump".to_owned()));
    assert_eq!(instances.instance_size(&"stump".to_owned()), Some(0));
    assert_eq!(instances.first(&"stump".to_owned()), None);

    // more than one primitive collapses into the aggregate the driver
    // built, shared by every later instance
    assert!(instances.collapse(&"tree".to_owned(), 99));
    assert_eq!(instances.instance_size(&"tree".to_owned()), Some(1));
    assert_eq!(instances.first(&"tree".to_owned()), Some(&99));
    assert!(!instances.collapse(&"bush".to_owned(), 100));

    // redefining a name empties its aggregate
    assert!(instances.begin("tree".to_owned()));
    assert_eq!(instances.instance_size(&"tree".to_owned()), Some(0));
}

#[test]
fn empty_scenes_are_fatal() {
    assert!(scene_is_fatal(0, 0));
    assert!(!scene_is_fatal(1, 0));
    assert!(!scene_is_fatal(0, 2));
    assert!(!scene_is_fatal(3, 4));
}
