use l99::{kth, last, last_but_one, length, reverse, List, ListIter};

fn list_of(v: Vec<u32>) -> List<u32> {
    List::from_iter(v)
}

fn cons(x: u32, rest: List<u32>) -> List<u32> {
    List::Cons(x, Box::new(rest))
}

fn drain(mut it: ListIter<u32>) -> Vec<u32> {
    let mut out = Vec::new();
    while let Some(x) = it.next() {
        out.push(x);
    }
    out
}

#[test]
fn test_iterator() {
    let v: Vec<u32> = vec![1, 2, 3, 4];
    let l: List<u32> = list_of(vec![1, 2, 3, 4]);
    let v2 = drain(l.iter());
    assert!(v == v2);
}

#[test]
fn from_iterator_test() {
    let v: Vec<u32> = vec![1, 2, 3, 4];
    let l: List<u32> = cons(1, cons(2, cons(3, cons(4, List::Nil))));
    assert!(List::from_iter(v) == l);
}

#[test]
fn test_last() {
    assert!(last(list_of(vec![1, 2, 3])) == Some(3));
    assert!(last::<()>(List::Nil) == None);
}

#[test]
fn test_last_but_one() {
    assert!(last_but_one(list_of(vec![1, 2, 3])) == Some(2));
    assert!(last_but_one(list_of(vec![3])) == None);
    assert!(last_but_one::<()>(List::Nil) == None);
}

#[test]
fn test_kth() {
    assert!(kth(list_of(vec![1, 2, 3]), 0) == Some(1));
    assert!(kth(list_of(vec![1, 2, 3]), 5) == None);
    assert!(kth(list_of(vec![1, 2, 3]), 2) == Some(3));
}

#[test]
fn test_length() {
    assert!(length::<()>(List::Nil) == 0);
    assert!(length(list_of(vec![1, 2, 3])) == 3);
}

#[test]
fn test_reverse() {
    assert!(reverse::<()>(List::Nil) == List::Nil);
    assert!(reverse(list_of(vec![1, 2, 3])) == list_of(vec![3, 2, 1]));
    assert!(reverse(list_of(vec![1, 2])) == list_of(vec![2, 1]));
    assert!(reverse(list_of(vec![1])) == list_of(vec![1]));
}

#[test]
fn iterator_stays_exhausted() {
    let mut it = list_of(vec![7]).iter();
    assert_eq!(it.next(), Some(7));
    assert_eq!(it.next(), None);
    assert_eq!(it.next(), None);
}

#[test]
fn iterator_over_empty_list() {
    let mut it = List::<u32>::Nil.iter();
    assert_eq!(it.next(), None);
}

#[test]
fn round_trip_through_vec() {
    assert_eq!(list_of(vec![1, 2, 3, 4]).to_vec(), vec![1, 2, 3, 4]);
    assert_eq!(list_of(vec![]).to_vec(), Vec::<u32>::new());
    assert!(List::<u32>::from_iter(vec![]) == List::Nil);
    let l = cons(5, cons(6, List::Nil));
    assert!(List::from_iter(l.to_vec()) == cons(5, cons(6, List::Nil)));
}

#[test]
fn reverse_twice_gives_back_the_list() {
    let l = list_of(vec![4, 8, 15, 16, 23, 42]);
    assert!(reverse(reverse(l)) == list_of(vec![4, 8, 15, 16, 23, 42]));
}

#[test]
fn reverse_keeps_length() {
    assert_eq!(length(reverse(list_of(vec![9, 8, 7, 6]))), 4);
    assert_eq!(length(reverse(List::<u32>::Nil)), 0);
}

#[test]
fn last_agrees_with_kth() {
    let v = vec![10, 20, 30, 40];
    let n = length(list_of(v.clone()));
    assert_eq!(last(list_of(v.clone())), kth(list_of(v), n - 1));
    assert_eq!(last(list_of(vec![99])), Some(99));
}

#[test]
fn last_but_one_agrees_with_kth() {
    let v = vec![10, 20, 30, 40];
    let n = length(list_of(v.clone()));
    assert_eq!(last_but_one(list_of(v.clone())), kth(list_of(v), n - 2));
    assert_eq!(last_but_one(list_of(vec![1, 2])), Some(1));
}

#[test]
fn kth_at_and_past_the_end() {
    assert_eq!(kth(list_of(vec![1, 2, 3]), 3), None);
    assert_eq!(kth(List::<u32>::Nil, 0), None);
    assert_eq!(kth(list_of(vec![1, 2, 3]), usize::MAX), None);
    assert_eq!(kth(list_of(vec![1, 2, 3]), 1), Some(2));
}
