use futures_lite::future::block_on;
use lupin::actor::ActorRef;

#[test]
fn pipe_of_source_and_pipeline_reads_from_the_second() {
    let (src_tx, src_rx) = async_channel::unbounded::<usize>();
    let (in_tx, in_rx) = async_channel::unbounded::<usize>();
    let (out_tx, out_rx) = async_channel::unbounded::<usize>();
    let first: ActorRef<(), usize> = ActorRef::Source(src_rx);
    let second: ActorRef<usize, usize> = ActorRef::Pipeline(in_tx, out_rx);
    let (joined, between_rx, between_tx) = first.pipe(second);
    assert!(matches!(joined, ActorRef::Source(_)));
    block_on(async {
        // what the first actor emits is read from `between_rx`
        src_tx.send(1).await.unwrap();
        assert_eq!(1, between_rx.recv().await.unwrap());
        // what is sent to `between_tx` reaches the second actor
        between_tx.send(2).await.unwrap();
        assert_eq!(2, in_rx.recv().await.unwrap());
        // the joined reference reads the second actor's output
        out_tx.send(3).await.unwrap();
        assert_eq!(3, joined.receiver().recv().await.unwrap());
    });
}

#[test]
fn pipe_of_two_pipelines_is_fed_by_the_first() {
    let (a_tx, a_in) = async_channel::unbounded::<usize>();
    let (a_out_tx, a_out) = async_channel::unbounded::<usize>();
    let (b_tx, b_in) = async_channel::unbounded::<usize>();
    let (b_out_tx, b_out) = async_channel::unbounded::<usize>();
    let first: ActorRef<usize, usize> = ActorRef::Pipeline(a_tx, a_out);
    let second: ActorRef<usize, usize> = ActorRef::Pipeline(b_tx, b_out);
    let (joined, between_rx, between_tx) = first.pipe(second);
    assert!(matches!(joined, ActorRef::Pipeline(_, _)));
    block_on(async {
        joined.sender().send(10).await.unwrap();
        assert_eq!(10, a_in.recv().await.unwrap());
        a_out_tx.send(11).await.unwrap();
        assert_eq!(11, between_rx.recv().await.unwrap());
        between_tx.send(12).await.unwrap();
        assert_eq!(12, b_in.recv().await.unwrap());
        b_out_tx.send(13).await.unwrap();
        assert_eq!(13, joined.receiver().recv().await.unwrap());
    });
}

#[test]
fn splice_keeps_the_input_and_reroutes_the_output() {
    let (tx, in_rx) = async_channel::unbounded::<usize>();
    let (out_tx, out_rx) = async_channel::unbounded::<usize>();
    let actor: ActorRef<usize, usize> = ActorRef::Pipeline(tx, out_rx);
    let (spliced, old_rx, new_tx) = actor.splice::<String>();
    assert!(matches!(spliced, ActorRef::Pipeline(_, _)));
    block_on(async {
        spliced.sender().send(1).await.unwrap();
        assert_eq!(1, in_rx.recv().await.unwrap());
        out_tx.send(2).await.unwrap();
        assert_eq!(2, old_rx.recv().await.unwrap());
        new_tx.send("two".to_string()).await.unwrap();
        assert_eq!("two", spliced.receiver().recv().await.unwrap());
    });
}

#[test]
fn splice_of_a_source_stays_a_source() {
    let (src_tx, src_rx) = async_channel::unbounded::<u8>();
    let actor: ActorRef<(), u8> = ActorRef::Source(src_rx);
    let (spliced, old_rx, new_tx) = actor.splice::<u16>();
    assert!(matches!(spliced, ActorRef::Source(_)));
    block_on(async {
        src_tx.send(4).await.unwrap();
        assert_eq!(4, old_rx.recv().await.unwrap());
        new_tx.send(400).await.unwrap();
        assert_eq!(400, spliced.receiver().recv().await.unwrap());
    });
}

#[test]
fn clone_keeps_the_kind_and_the_channel() {
    let closed: ActorRef<u8, u8> = ActorRef::Closed;
    assert!(matches!(closed.clone(), ActorRef::Closed));
    let (tx, rx) = async_channel::unbounded::<u8>();
    let (out_tx, out_rx) = async_channel::unbounded::<u8>();
    let actor: ActorRef<u8, u8> = ActorRef::Pipeline(tx, out_rx);
    let copy = actor.clone();
    assert!(matches!(copy, ActorRef::Pipeline(_, _)));
    block_on(async {
        copy.sender().send(5).await.unwrap();
        assert_eq!(5, rx.recv().await.unwrap());
        out_tx.send(6).await.unwrap();
        assert_eq!(6, actor.receiver().recv().await.unwrap());
    });
    let (_s, r) = async_channel::unbounded::<u8>();
    let source: ActorRef<(), u8> = ActorRef::Source(r);
    assert!(matches!(source.clone(), ActorRef::Source(_)));
}
