#![allow(unused_variables, dead_code)]

use hello::advanced_features::adv_type::Kilometers;

#[test]
fn adv_type_it_works() {
    let x: i32 = 5;
    let y: Kilometers = 5;

    println!("x + y = {}", x + y);
}

#[test]
fn it_works2() {
    type Thunk = Box<dyn Fn() + Send + 'static>;

    let f: Thunk = Box::new(|| println!("hi"));

    fn takes_long_type(f: Thunk) {
    }

    fn returns_long_type() -> Thunk {
        Box::new(|| ())
    }
}
