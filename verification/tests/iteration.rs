use pyobject_util::{get_iter, get_iter_call, iter_next, iter_next_call};
use pyobject_util::{EntryPoint, ObjectHandle};

#[test]
fn pulls_give_the_elements_then_absence() {
    // The answers of an iterator over three elements, pulled five times.
    let a = ObjectHandle::from_addr(0x10);
    let b = ObjectHandle::from_addr(0x20);
    let c = ObjectHandle::from_addr(0x30);
    let answers = vec![a, b, c, ObjectHandle::null(), ObjectHandle::null()];
    let mut pulled = Vec::new();
    for answer in &answers {
        pulled.push(iter_next(*answer));
    }
    assert_eq!(pulled, vec![Some(a), Some(b), Some(c), None, None]);
}

#[test]
fn empty_iterator_is_absent_at_once() {
    assert_eq!(iter_next(ObjectHandle::null()), None);
    assert_eq!(iter_next(ObjectHandle::null()), None);
}

#[test]
fn an_element_may_repeat() {
    let a = ObjectHandle::from_addr(0x10);
    assert_eq!(iter_next(a), Some(a));
    assert_eq!(iter_next(a), Some(a));
}

#[test]
fn get_iter_on_a_non_iterable_object_is_absent() {
    // The runtime answers the request with the null handle.
    assert_eq!(get_iter(ObjectHandle::null()), None);
}

#[test]
fn get_iter_gives_the_iterator() {
    let iter = ObjectHandle::from_addr(0xabc0);
    assert_eq!(get_iter(iter), Some(iter));
    assert_eq!(get_iter(ObjectHandle::from_addr(usize::MAX)), Some(ObjectHandle::from_addr(usize::MAX)));
}

#[test]
fn iter_next_crosses_at_the_pull_entry_point() {
    let iter = ObjectHandle::from_addr(0xabc0);
    let call = iter_next_call(iter);
    assert_eq!(call.entry(), EntryPoint::PyIterNext);
    assert_eq!(call.args(), &vec![iter]);
}

#[test]
fn get_iter_crosses_at_the_iterator_entry_point() {
    let obj = ObjectHandle::from_addr(0x7700);
    let call = get_iter_call(obj);
    assert_eq!(call.entry(), EntryPoint::PyObjectGetIter);
    assert_eq!(call.args(), &vec![obj]);
}
