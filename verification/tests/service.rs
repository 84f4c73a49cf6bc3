use lupin::functional::FunctionalActor;
use lupin::service::{once, source, ServiceExt};
use lupin::stream::StreamActor;

#[test]
fn services_keep_their_actor() {
    let s = once::<&str, u8, u16>("actor");
    assert_eq!("actor", s.actor);
    let src = source::<&str, u8>("source");
    assert_eq!("source", src.actor);
}

#[test]
fn services_pipe_in_order() {
    let first = once::<&str, u8, u16>("first");
    let second = once::<&str, u16, u32>("second");
    let p = ServiceExt::<u8, u16>::pipe::<_, u32>(first, second);
    assert_eq!("first", p.first.actor);
    assert_eq!("second", p.second.actor);
}

#[test]
fn wrappers_hold_what_they_wrap() {
    let f: FunctionalActor<fn(usize) -> usize, fn(usize) -> usize> =
        FunctionalActor::new(|x| x + 1);
    assert_eq!(3, (f.clone().func)(2));
    let s = StreamActor::new(vec![1, 2, 3].into_iter());
    assert_eq!(vec![1, 2, 3], s.inner.collect::<Vec<_>>());
}
