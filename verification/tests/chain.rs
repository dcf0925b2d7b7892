use blockchain::block::{Block, BlockData, Timestamp};
use blockchain::blockchain::BlockChain;

fn genesis() -> Block {
    Block::with_timestamp(
        0,
        BlockData::Text("genesis".to_string()),
        &blockchain::hash::Hash::default(),
        Timestamp { secs: 1700000000, nanos: 0 },
    )
}

fn text(block: &Block) -> String {
    match &block.data {
        BlockData::Text(t) => t.clone(),
    }
}

#[test]
fn block_fields_and_hash() {
    let g = genesis();
    assert_eq!(g.index, 0);
    assert_eq!(g.timestamp, Timestamp { secs: 1700000000, nanos: 0 });
    assert!(g.previous_hash == blockchain::hash::Hash::default());
    assert_eq!(g.hash.to_hex(), "0f47995462c7d25e636295ba9071c6f01e1f07d524926dc4f09f70b599b555ae");
    assert!(g.hash == blockchain::hash::Hash::from_block(&g));
}

#[test]
fn next_block_follows_previous() {
    let g = genesis();
    let next = Block::from_previous(&g, BlockData::Text("second".to_string()));
    assert_eq!(next.index, 1);
    assert!(next.previous_hash == g.hash);
    assert!(next.validate_previous(&g));
}

#[test]
fn tampered_block_does_not_follow() {
    let g = genesis();
    let mut next = Block::from_previous(&g, BlockData::Text("second".to_string()));
    next.data = BlockData::Text("forged".to_string());
    assert!(!next.validate_previous(&g));
    let other = Block::with_timestamp(2, BlockData::Text("x".to_string()), &g.hash, g.timestamp);
    assert!(!other.validate_previous(&g));
    let unlinked = Block::new(1, BlockData::Text("x".to_string()), &blockchain::hash::Hash::default());
    assert!(!unlinked.validate_previous(&g));
}

#[test]
fn chain_accepts_only_following_blocks() {
    let mut chain = BlockChain::new(genesis());
    let b1 = Block::from_previous(chain.last(), BlockData::Text("one".to_string()));
    assert!(chain.add_block(b1.clone()));
    assert_eq!(chain.blocks.len(), 2);
    assert!(!chain.add_block(b1));
    assert_eq!(chain.blocks.len(), 2);
    let b2 = Block::from_previous(chain.last(), BlockData::Text("two".to_string()));
    assert!(chain.add_block(b2));
    assert_eq!(chain.last().index, 2);
    assert_eq!(text(chain.last()), "two");
}

#[test]
fn tail_gives_the_last_blocks_in_order() {
    let mut chain = BlockChain::new(genesis());
    for name in ["one", "two", "three"] {
        let b = Block::from_previous(chain.last(), BlockData::Text(name.to_string()));
        assert!(chain.add_block(b));
    }
    let t = chain.tail(2);
    assert_eq!(t.len(), 2);
    assert_eq!(text(&t[0]), "two");
    assert_eq!(text(&t[1]), "three");
    assert!(t[1].validate_previous(&t[0]));
    assert_eq!(chain.tail(0).len(), 0);
    let all = chain.tail(10);
    assert_eq!(all.len(), 4);
    assert_eq!(all[0].index, 0);
    assert_eq!(all[3].index, 3);
}

#[test]
fn append_data_adds_the_next_block() {
    let mut chain = BlockChain::new(genesis());
    let b = chain.append_data(BlockData::Text("one".to_string()));
    assert_eq!(b.index, 1);
    assert!(b.previous_hash == genesis().hash);
    assert!(b.validate_previous(&chain.blocks[0]));
    assert_eq!(chain.blocks.len(), 2);
    assert!(chain.last().hash == b.hash);
    assert_eq!(text(chain.last()), "one");
}
