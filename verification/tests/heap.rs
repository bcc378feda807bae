use rc::deref;
use rc::free;
use rc::malloc;

pub struct A {
    id: u32,
    name: String,
}

impl A {
    pub fn new() -> Self {
        return A { id: 12, name: "a".to_string() };
    }
}

#[test]
fn alloc_work_test() {
    println!("alloc_work_test");
    let mut a: Box<A>;
    {
        a = malloc(A::new());
        let id = deref(&mut a).id;
        println!("a = {:p}, a.id = {}", a, id);
    }
    let id = deref(&mut a).id;
    println!("a = {:p}, a.id = {}", a, id);
    assert_eq!(deref(&mut a).id, 12);
    assert_eq!(deref(&mut a).name, "a");
    free(a);
}

#[test]
fn deref_writes_reach_the_cell() {
    let mut cell = malloc(5u64);
    *deref(&mut cell) += 10;
    assert_eq!(*cell, 15);
    *deref(&mut cell) = 1;
    assert_eq!(*deref(&mut cell), 1);
    free(cell);
}

struct Counted(std::rc::Rc<std::cell::Cell<u32>>);

impl Drop for Counted {
    fn drop(&mut self) {
        self.0.set(self.0.get() + 1);
    }
}

#[test]
fn free_does_not_run_the_destructor() {
    let drops = std::rc::Rc::new(std::cell::Cell::new(0));
    let cell = malloc(Counted(drops.clone()));
    free(cell);
    assert_eq!(drops.get(), 0);
}
