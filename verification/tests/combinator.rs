use futures_lite::future::block_on;
use lupin::actor::ActorRef;
use lupin::combinator::{filter_item, filter_map_item, map_item, parallel, ChunkBuffer};

fn add1(x: &usize) -> usize {
    x + 1
}

fn mul2(x: &usize) -> usize {
    x * 2
}

/// Feed `items` through a chunk buffer and collect the chunks it hands out.
fn run_chunks(size: usize, items: &[usize]) -> (Vec<Vec<usize>>, ChunkBuffer<usize>) {
    let mut buffer = ChunkBuffer::new(size);
    let mut out = Vec::new();
    for item in items {
        if let Some(c) = buffer.push(*item) {
            out.push(c);
        }
    }
    (out, buffer)
}

#[test]
fn pipe() {
    let p = lupin::combinator::pipe(add1, mul2);
    // the channels of the two running actors
    let (first_in_tx, first_in_rx) = async_channel::unbounded::<usize>();
    let (first_out_tx, first_out_rx) = async_channel::unbounded::<usize>();
    let (second_in_tx, second_in_rx) = async_channel::unbounded::<usize>();
    let (second_out_tx, second_out_rx) = async_channel::unbounded::<usize>();
    let first: ActorRef<usize, usize> = ActorRef::Pipeline(first_in_tx, first_out_rx);
    let second: ActorRef<usize, usize> = ActorRef::Pipeline(second_in_tx, second_out_rx);
    let (actor, between_rx, between_tx) = first.pipe(second);
    block_on(async {
        actor.sender().send(1).await.unwrap();
        // the first actor's task
        let x = first_in_rx.recv().await.unwrap();
        first_out_tx.send((p.first)(&x)).await.unwrap();
        // the pipe's task
        between_tx.send(between_rx.recv().await.unwrap()).await.unwrap();
        // the second actor's task
        let y = second_in_rx.recv().await.unwrap();
        second_out_tx.send((p.second)(&y)).await.unwrap();
        assert_eq!(4, actor.receiver().recv().await.unwrap());
    });
}

#[test]
fn chunk() {
    let (out, _) = run_chunks(3, &[1, 2, 3]);
    assert_eq!(vec![vec![1, 2, 3]], out);

    // with sum
    let mut total: usize = 0;
    for x in &out[0] {
        lupin::numeric::add_to_total(&mut total, *x);
    }
    assert_eq!(6, total);
}

#[test]
fn filter() {
    // Predicate: only allow even numbers
    let even = |x: &usize| *x % 2 == 0;
    let passed: Vec<usize> = [1, 2, 3, 4].into_iter().filter_map(|x| filter_item(&even, x)).collect();
    // Only 2 and 4 should pass through
    assert_eq!(vec![2, 4], passed);
}

#[test]
fn map() {
    // Mapping function: multiply by 10
    let times10 = |x: usize| x * 10;
    assert_eq!(10, map_item(&times10, 1));
    assert_eq!(20, map_item(&times10, 2));
    assert_eq!(30, map_item(&times10, 3));
}

#[test]
fn filter_map() {
    // Only allow even numbers and divide them by 2
    let halve_even = |x: usize| if x % 2 == 0 { Some(x / 2) } else { None };
    let passed: Vec<usize> =
        [1, 2, 3, 4].into_iter().filter_map(|x| filter_map_item(&halve_even, x)).collect();
    assert_eq!(vec![1, 2], passed);
}

#[test]
fn chunk_sizes_are_exact_and_order_kept() {
    let items: Vec<usize> = (0..10).collect();
    let (out, rest) = run_chunks(4, &items);
    assert_eq!(vec![vec![0, 1, 2, 3], vec![4, 5, 6, 7]], out);
    // the two pending items are sent with the next two
    let mut rest = rest;
    assert_eq!(None, rest.push(10));
    assert_eq!(Some(vec![8, 9, 10, 11]), rest.push(11));
}

#[test]
fn chunk_of_size_zero_sends_nothing() {
    let (out, mut rest) = run_chunks(0, &[7, 8]);
    assert!(out.is_empty());
    assert_eq!(None, rest.push(9));
}

#[test]
fn chunk_of_size_one() {
    let (out, _) = run_chunks(1, &[5, 6, 7]);
    assert_eq!(vec![vec![5], vec![6], vec![7]], out);
}

#[test]
fn nothing_sent_before_a_chunk_is_full() {
    let (out, mut rest) = run_chunks(5, &[1, 2, 3, 4]);
    assert!(out.is_empty());
    assert_eq!(Some(vec![1, 2, 3, 4, 5]), rest.push(5));
    assert_eq!(None, rest.push(6));
}

#[test]
fn constructors_keep_their_parts() {
    let c = lupin::combinator::chunk("actor", 3);
    assert_eq!("actor", c.actor);
    assert_eq!(3, c.size);
    let p = parallel("worker", 4);
    assert_eq!("worker", p.actor);
    assert_eq!(4, p.workers);
    let f = lupin::combinator::filter("actor", 9u8);
    assert_eq!("actor", f.actor);
    assert_eq!(9u8, f.predicate);
    let m = lupin::combinator::map("actor", 1u8);
    assert_eq!("actor", m.actor);
    assert_eq!(1u8, m.func);
    let fm = lupin::combinator::filter_map("actor", 2u8);
    assert_eq!("actor", fm.actor);
    assert_eq!(2u8, fm.func);
    let pp = lupin::combinator::pipe(1u8, 2u16);
    assert_eq!(1u8, pp.first);
    assert_eq!(2u16, pp.second);
}

#[test]
fn filter_twice_is_filter_with_both() {
    let even = |x: &usize| *x % 2 == 0;
    let small = |x: &usize| *x < 5;
    let items = [1usize, 2, 3, 4, 5, 6];
    let once: Vec<usize> = items.iter().filter_map(|x| filter_item(&even, *x)).collect();
    let twice: Vec<usize> = once.into_iter().filter_map(|x| filter_item(&small, x)).collect();
    let both = |x: &usize| even(x) && small(x);
    let together: Vec<usize> = items.iter().filter_map(|x| filter_item(&both, *x)).collect();
    assert_eq!(vec![2, 4], twice);
    assert_eq!(twice, together);
}

#[test]
fn filter_map_is_filter_then_map() {
    let fm = |x: usize| if x % 3 == 0 { Some(x * 10) } else { None };
    let by_filter_map: Vec<usize> =
        (0..10).filter_map(|x| filter_map_item(&fm, x)).collect();
    let third = |x: &usize| *x % 3 == 0;
    let times10 = |x: usize| x * 10;
    let by_both: Vec<usize> =
        (0..10).filter_map(|x| filter_item(&third, x)).map(|x| map_item(&times10, x)).collect();
    assert_eq!(vec![0, 30, 60, 90], by_filter_map);
    assert_eq!(by_filter_map, by_both);
}

#[test]
fn filter_drops_what_fails_the_predicate() {
    let never = |_: &usize| false;
    assert_eq!(None, filter_item(&never, 3));
    let always = |_: &usize| true;
    assert_eq!(Some(3), filter_item(&always, 3));
}
