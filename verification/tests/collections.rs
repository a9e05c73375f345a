use minitask::container::{Container, Stack};
use minitask::signals::{Message, TrafficLight};
use minitask::vecs::{
    calculate_sum, double_values, filter_and_double, find_max, process_data, sum_slice,
};

#[test]
fn test_container() {
    let mut c: Container<i32> = Container::new();
    assert!(c.is_empty());
    assert_eq!(c.len(), 0);
    c.add(10);
    c.add(20);
    assert!(!c.is_empty());
    assert_eq!(c.len(), 2);
    assert_eq!(c.get(0), Some(&10));
    assert_eq!(c.get(1), Some(&20));
    assert_eq!(c.get(2), None);
}

#[test]
fn test_stack_is_last_in_first_out() {
    let mut s: Stack<&str> = Stack::new();
    assert!(s.is_empty());
    assert_eq!(s.pop(), None);
    s.push("a");
    s.push("b");
    s.push("c");
    assert_eq!(s.len(), 3);
    assert_eq!(s.peek(), Some(&"c"));
    assert_eq!(s.pop(), Some("c"));
    assert_eq!(s.pop(), Some("b"));
    assert_eq!(s.pop(), Some("a"));
    assert_eq!(s.pop(), None);
    assert!(s.is_empty());
}

#[test]
fn test_sum_slice_and_calculate_sum() {
    assert_eq!(sum_slice(&[1, 2, 3, 4, 5]), 15);
    assert_eq!(sum_slice(&[]), 0);
    assert_eq!(sum_slice(&[-3, 3]), 0);
    assert_eq!(calculate_sum(&vec![10, 20, 30]), 60);
}

#[test]
fn test_find_max() {
    assert_eq!(find_max(&[3, 9, 2, 9, 1]), Some(&9));
    assert_eq!(find_max(&[-5, -2, -8]), Some(&-2));
    assert_eq!(find_max(&[]), None);
}

#[test]
fn test_filter_and_double() {
    assert_eq!(filter_and_double(&[1, -2, 3, 0, 4]), vec![2, 6, 8]);
    assert_eq!(filter_and_double(&[-1, -2]), Vec::<i32>::new());
}

#[test]
fn test_double_values() {
    let mut data = vec![1, 2, 3];
    double_values(&mut data);
    assert_eq!(data, vec![2, 4, 6]);
}

#[test]
fn test_process_data() {
    assert_eq!(process_data(vec![1, 2, 3, 4, 5]), vec![1, 2, 3, 4, 5, 6]);
}

#[test]
fn test_traffic_light_cycle() {
    assert_eq!(TrafficLight::Red.next(), TrafficLight::Green);
    assert_eq!(TrafficLight::Green.next(), TrafficLight::Yellow);
    assert_eq!(TrafficLight::Yellow.next(), TrafficLight::Red);
    assert_eq!(TrafficLight::Red.next().next().next(), TrafficLight::Red);
}

#[test]
fn test_traffic_light_durations() {
    assert_eq!(TrafficLight::Red.duration_seconds(), 60);
    assert_eq!(TrafficLight::Yellow.duration_seconds(), 5);
    assert_eq!(TrafficLight::Green.duration_seconds(), 45);
}

#[test]
fn test_message_type() {
    assert_eq!(Message::Quit.message_type(), "Quit");
    assert_eq!(Message::Move { x: 1, y: 2 }.message_type(), "Move");
    assert_eq!(Message::Write(String::from("hi")).message_type(), "Write");
    assert_eq!(Message::ChangeColor(1, 2, 3).message_type(), "ChangeColor");
}
