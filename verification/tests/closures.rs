#[derive(Debug)]
struct Rectangle {
    width: u32,
    height: u32,
}

#[test]
fn test_closures_refer() {
    let list = vec![1, 2, 3];
    let only_borrows = || println!("From closure: {:?}", list);
    println!("Before calling closure {:?}", list);
    only_borrows();
    println!("After calling closure {:?}", list);
}

#[test]
fn test_closures_mutable() {
    let mut list = vec![1, 2, 3];
    println!("Before calling closure {:?}", list);
    let mut borrows_mutably = || list.push(7);
    borrows_mutably();
    println!("After calling closure {:?}", list);
}

#[test]
fn test_closures_capture_fn_mut() {
    let mut list = [
        Rectangle { width: 10, height: 1 },
        Rectangle { width: 3, height: 5 },
        Rectangle { width: 7, height: 12 },
    ];
    list.sort_by_key(|r| r.width);
    println!("{list:#?}");
}

#[test]
fn test_closures_capture_fn_once() {
    let mut list = [
        Rectangle { width: 10, height: 1 },
        Rectangle { width: 3, height: 5 },
        Rectangle { width: 7, height: 12 },
    ];

    #[allow(unused_variables)]
    let value = String::from("closure called");

    list.sort_by_key(|r| {
        r.width
    });
    println!("{list:#?}");
}

#[test]
fn test_closures_capture_fn_mut_count() {
    let mut list = [
        Rectangle { width: 10, height: 1 },
        Rectangle { width: 3, height: 5 },
        Rectangle { width: 7, height: 12 },
    ];

    let mut num_sort_operations = 0;
    list.sort_by_key(|r| {
        num_sort_operations += 1;
        r.width
    });
    println!("{list:#?}, sorted in {num_sort_operations} operations");
}
