use protochess_engine::{
    DepthReport, Entry, EntryFlag, Evaluator, HistoryTable, KillerTable, Move, MoveGenerator,
    Position, Searcher, KILLER_PLIES, MATE_SCORE,
};

// A game given as an explicit tree: each node is a position, each edge a
// move. Node ids double as position hashes.

#[derive(Clone)]
struct Node {
    children: Vec<(Move, usize, bool)>,
    null_child: Option<usize>,
    in_check: bool,
    eval: isize,
    can_null: bool,
}

struct Tree {
    nodes: Vec<Node>,
}

impl Tree {
    fn new() -> Tree {
        Tree { nodes: Vec::new() }
    }

    fn add(&mut self, eval: isize) -> usize {
        self.nodes.push(Node {
            children: Vec::new(),
            null_child: None,
            in_check: false,
            eval,
            can_null: false,
        });
        self.nodes.len() - 1
    }

    fn link(&mut self, parent: usize, m: Move, child: usize, legal: bool) {
        self.nodes[parent].children.push((m, child, legal));
    }

    fn legal_children(&self, node: usize) -> Vec<usize> {
        self.nodes[node]
            .children
            .iter()
            .filter(|c| c.2)
            .map(|c| c.1)
            .collect()
    }
}

struct TreePos<'a> {
    tree: &'a Tree,
    current: usize,
    trail: Vec<usize>,
}

impl<'a> TreePos<'a> {
    fn at(tree: &'a Tree, node: usize) -> TreePos<'a> {
        TreePos { tree, current: node, trail: Vec::new() }
    }
}

// The `spec_` methods describe the position to the search's contracts;
// the search itself only calls the others.
impl<'a> Position for TreePos<'a> {
    fn spec_zobrist(&self) -> u64 {
        self.current as u64
    }

    fn spec_parent(&self) -> Self {
        let mut trail = self.trail.clone();
        let current = trail.pop().unwrap_or(self.current);
        TreePos { tree: self.tree, current, trail }
    }

    fn spec_pieces(&self) -> u64 {
        let captures = self
            .trail
            .iter()
            .zip(self.trail.iter().skip(1).chain(std::iter::once(&self.current)))
            .filter(|(from, to)| {
                self.tree.nodes[**from].children.iter().any(|c| c.1 == **to && c.0.is_capture)
            })
            .count();
        1000 - captures as u64
    }

    fn get_zobrist(&self) -> u64 {
        self.current as u64
    }

    fn make_move(&mut self, m: Move) {
        let node = &self.tree.nodes[self.current];
        let next = if m.is_null() {
            node.null_child.expect("null move from a node without one")
        } else {
            node.children.iter().find(|c| c.0 == m).expect("move not in the tree").1
        };
        self.trail.push(self.current);
        self.current = next;
    }

    fn unmake_move(&mut self) {
        self.current = self.trail.pop().expect("no move to take back");
    }
}

struct Rules;

impl<'a> MoveGenerator<TreePos<'a>> for Rules {
    fn spec_pseudo_move_count(&self, pos: TreePos<'a>) -> usize {
        self.get_pseudo_moves(&pos).len()
    }

    fn spec_pseudo_move(&self, pos: TreePos<'a>, i: usize) -> Move {
        self.get_pseudo_moves(&pos)[i]
    }

    fn spec_capture_move_count(&self, pos: TreePos<'a>) -> usize {
        self.get_capture_moves(&pos).len()
    }

    fn spec_capture_move(&self, pos: TreePos<'a>, i: usize) -> Move {
        self.get_capture_moves(&pos)[i]
    }

    fn spec_is_legal(&self, pos: TreePos<'a>, m: Move) -> bool {
        self.is_move_legal(&m, &pos)
    }

    fn spec_in_check(&self, pos: TreePos<'a>) -> bool {
        self.in_check(&pos)
    }

    fn get_pseudo_moves(&self, pos: &TreePos<'a>) -> Vec<Move> {
        pos.tree.nodes[pos.current].children.iter().map(|c| c.0).collect()
    }

    fn get_capture_moves(&self, pos: &TreePos<'a>) -> Vec<Move> {
        pos.tree.nodes[pos.current]
            .children
            .iter()
            .filter(|c| c.0.is_capture)
            .map(|c| c.0)
            .collect()
    }

    fn is_move_legal(&self, m: &Move, pos: &TreePos<'a>) -> bool {
        pos.tree.nodes[pos.current].children.iter().any(|c| c.0 == *m && c.2)
    }

    fn in_check(&self, pos: &TreePos<'a>) -> bool {
        pos.tree.nodes[pos.current].in_check
    }
}

struct Eval {
    evaluations: usize,
}

impl Eval {
    fn order_score(depth: u8, history: &HistoryTable, killers: &KillerTable, m: &Move) -> usize {
        if m.is_capture {
            return 10_000 + m.to as usize;
        }
        let ply = depth as usize;
        if ply < KILLER_PLIES {
            if killers.get(ply, 0) == *m {
                return 9_000;
            }
            if killers.get(ply, 1) == *m {
                return 8_000;
            }
        }
        history.get(m.from, m.to)
    }
}

impl<'a> Evaluator<TreePos<'a>> for Eval {
    fn spec_evaluate(pos: TreePos<'a>) -> isize {
        pos.tree.nodes[pos.current].eval
    }

    fn spec_score_move(
        depth: u8,
        history: HistoryTable,
        killers: KillerTable,
        _pos: TreePos<'a>,
        m: Move,
    ) -> usize {
        Eval::order_score(depth, &history, &killers, &m)
    }

    fn spec_can_null(pos: TreePos<'a>) -> bool {
        pos.tree.nodes[pos.current].can_null
    }

    fn evaluate<M: MoveGenerator<TreePos<'a>>>(&mut self, pos: &TreePos<'a>, _movegen: &M) -> isize {
        self.evaluations += 1;
        pos.tree.nodes[pos.current].eval
    }

    fn score_move(
        &mut self,
        depth: u8,
        history: &HistoryTable,
        killers: &KillerTable,
        _pos: &TreePos<'a>,
        m: &Move,
    ) -> usize {
        Eval::order_score(depth, history, killers, m)
    }

    fn can_do_null_move(&mut self, pos: &TreePos<'a>) -> bool {
        pos.tree.nodes[pos.current].can_null
    }
}

fn quiet(from: u8, to: u8) -> Move {
    Move::new(from, to, false, 0)
}

fn capture(from: u8, to: u8) -> Move {
    Move::new(from, to, true, 0)
}

// A small linear congruential generator, so that the trees are the same
// on every run.
struct Lcg(u64);

impl Lcg {
    fn next(&mut self) -> u64 {
        self.0 = self.0.wrapping_mul(6364136223846793005).wrapping_add(1442695040888963407);
        self.0 >> 33
    }

    fn range(&mut self, lo: isize, hi: isize) -> isize {
        lo + (self.next() % ((hi - lo + 1) as u64)) as isize
    }
}

fn grow(tree: &mut Tree, rng: &mut Lcg, node: usize, height: u32, branching: u64) {
    if height == 0 {
        return;
    }
    let n = 1 + rng.next() % branching;
    for k in 0..n {
        let child = tree.add(rng.range(-300, 300));
        let is_capture = rng.next() % 4 == 0;
        let legal = rng.next() % 6 != 0;
        let m = Move::new((node % 200) as u8, (k * 7 + 1) as u8, is_capture, (child % 250) as u8);
        tree.link(node, m, child, legal);
        grow(tree, rng, child, height - 1, branching);
    }
}

fn random_tree(seed: u64, height: u32, branching: u64) -> Tree {
    let mut tree = Tree::new();
    let mut rng = Lcg(seed);
    let root = tree.add(0);
    grow(&mut tree, &mut rng, root, height, branching);
    tree
}

// Plain negamax over the tree, with the same capture-only extension at
// the horizon and the same terminal scores, without any pruning.
fn reference_quiesce(tree: &Tree, node: usize) -> isize {
    let mut best = tree.nodes[node].eval;
    for c in &tree.nodes[node].children {
        if c.0.is_capture && c.2 {
            let v = -reference_quiesce(tree, c.1);
            if v > best {
                best = v;
            }
        }
    }
    best
}

fn reference_negamax(tree: &Tree, node: usize, depth: u8) -> isize {
    if depth == 0 {
        return reference_quiesce(tree, node);
    }
    let children = tree.legal_children(node);
    if children.is_empty() {
        return if tree.nodes[node].in_check { -MATE_SCORE } else { 0 };
    }
    children.iter().map(|&c| -reference_negamax(tree, c, depth - 1)).max().unwrap()
}

fn full_search(tree: &Tree, depth: u8) -> isize {
    let mut searcher = Searcher::new();
    let mut pos = TreePos::at(tree, 0);
    let mut eval = Eval { evaluations: 0 };
    searcher.alphabeta(&mut pos, &mut eval, &Rules, depth, -isize::MAX, isize::MAX, true)
}

// A root whose every move is illegal.
fn dead_end(in_check: bool) -> Tree {
    let mut tree = Tree::new();
    let root = tree.add(37);
    tree.nodes[root].in_check = in_check;
    let a = tree.add(5);
    let b = tree.add(-5);
    tree.link(root, quiet(1, 2), a, false);
    tree.link(root, capture(3, 4), b, false);
    tree
}

#[test]
fn checkmate_scores_mate() {
    let tree = dead_end(true);
    for depth in 1..6u8 {
        assert_eq!(full_search(&tree, depth), -99999);
    }
}

#[test]
fn stalemate_scores_zero_at_every_depth() {
    let tree = dead_end(false);
    for depth in 1..10u8 {
        assert_eq!(full_search(&tree, depth), 0);
    }
}

#[test]
fn no_legal_root_move_gives_no_best_move() {
    let tree = dead_end(true);
    let mut searcher = Searcher::new();
    let mut pos = TreePos::at(&tree, 0);
    let mut eval = Eval { evaluations: 0 };
    assert_eq!(searcher.get_best_move(&mut pos, &mut eval, &Rules, 3), None);
    assert_eq!(pos.current, 0);
}

#[test]
fn depth_zero_gives_no_best_move() {
    let tree = random_tree(7, 3, 3);
    let mut searcher = Searcher::new();
    let mut pos = TreePos::at(&tree, 0);
    let mut eval = Eval { evaluations: 0 };
    assert_eq!(searcher.get_best_move(&mut pos, &mut eval, &Rules, 0), None);
}

#[test]
fn depth_one_prefers_the_winning_capture() {
    // Two kings and a rook: taking the rook leaves the opponent far
    // behind; the quiet king move changes nothing.
    let mut tree = Tree::new();
    let root = tree.add(0);
    let after_quiet = tree.add(0);
    let after_capture = tree.add(-500);
    let king_move = quiet(4, 12);
    let take_rook = capture(4, 13);
    tree.link(root, king_move, after_quiet, true);
    tree.link(root, take_rook, after_capture, true);
    let mut searcher = Searcher::new();
    let mut pos = TreePos::at(&tree, root);
    let mut eval = Eval { evaluations: 0 };
    assert_eq!(searcher.get_best_move(&mut pos, &mut eval, &Rules, 1), Some(take_rook));
    assert_eq!(pos.current, root);
}

#[test]
fn depth_two_finds_mate_in_one() {
    let mut tree = Tree::new();
    let root = tree.add(0);
    let quiet_reply = tree.add(100);
    let mated = tree.add(0);
    tree.nodes[mated].in_check = true;
    let escape = tree.add(0);
    tree.link(mated, quiet(60, 61), escape, false);
    let leaf = tree.add(0);
    tree.link(quiet_reply, quiet(9, 10), leaf, true);
    let mate = quiet(1, 57);
    tree.link(root, quiet(1, 2), quiet_reply, true);
    tree.link(root, mate, mated, true);
    let mut searcher = Searcher::new();
    let mut pos = TreePos::at(&tree, root);
    let mut eval = Eval { evaluations: 0 };
    assert_eq!(searcher.get_best_move(&mut pos, &mut eval, &Rules, 2), Some(mate));
    assert_eq!(searcher.cached_entry(root as u64).unwrap().value, 99999);
}

#[test]
fn search_matches_plain_negamax() {
    for seed in 1..25u64 {
        let tree = random_tree(seed, 5, 4);
        for depth in 1..5u8 {
            assert_eq!(
                full_search(&tree, depth),
                reference_negamax(&tree, 0, depth),
                "seed {} depth {}",
                seed,
                depth
            );
        }
    }
}

#[test]
fn deeper_search_still_matches_negamax() {
    let tree = random_tree(99, 6, 3);
    let mut searcher = Searcher::new();
    let mut pos = TreePos::at(&tree, 0);
    let mut eval = Eval { evaluations: 0 };
    for depth in 1..6u8 {
        let report = searcher.search_depth(&mut pos, &mut eval, &Rules, depth);
        assert_eq!(report.depth, depth);
        assert_eq!(report.score, reference_negamax(&tree, 0, depth));
        assert!(report.fail_high_first <= report.fail_high);
        assert!(report.nodes >= 1);
        assert_eq!(searcher.nodes_searched(), 0);
    }
}

fn reports(tree: &Tree, max_depth: u8) -> (Vec<DepthReport>, Option<Move>) {
    let mut searcher = Searcher::new();
    let mut pos = TreePos::at(tree, 0);
    let mut eval = Eval { evaluations: 0 };
    let mut out = Vec::new();
    for d in 1..=max_depth {
        out.push(searcher.search_depth(&mut pos, &mut eval, &Rules, d));
    }
    let mut fresh = Searcher::new();
    let best = fresh.get_best_move(&mut pos, &mut eval, &Rules, max_depth);
    (out, best)
}

#[test]
fn repeated_runs_agree() {
    let tree = random_tree(2024, 5, 5);
    let (first, best1) = reports(&tree, 3);
    let (second, best2) = reports(&tree, 3);
    assert_eq!(first, second);
    assert_eq!(best1, best2);
    assert!(best1.is_some());
}

#[test]
fn searching_twice_with_a_fresh_cache_agrees() {
    let tree = random_tree(31337, 4, 4);
    let run = || {
        let mut searcher = Searcher::new();
        let mut pos = TreePos::at(&tree, 0);
        let mut eval = Eval { evaluations: 0 };
        let score = searcher.alphabeta(&mut pos, &mut eval, &Rules, 3, -isize::MAX, isize::MAX, true);
        let best = searcher.cached_entry(0).map(|e| e.move_);
        (score, best, searcher.nodes_searched())
    };
    assert_eq!(run(), run());
}

#[test]
fn killers_hold_no_capture_after_search() {
    for seed in 40..50u64 {
        let tree = random_tree(seed, 5, 4);
        let mut searcher = Searcher::new();
        let mut pos = TreePos::at(&tree, 0);
        let mut eval = Eval { evaluations: 0 };
        searcher.alphabeta(&mut pos, &mut eval, &Rules, 4, -isize::MAX, isize::MAX, true);
        for ply in 0..KILLER_PLIES {
            for k in 0..2 {
                assert!(!searcher.killer_moves().get(ply, k).get_is_capture());
            }
        }
    }
}

#[test]
fn update_killers_keeps_two_most_recent_quiet_moves() {
    let mut searcher = Searcher::new();
    let a = quiet(1, 2);
    let b = quiet(3, 4);
    let c = quiet(5, 6);
    searcher.update_killers(3, a);
    searcher.update_killers(3, b);
    assert_eq!(searcher.killer_moves().get(3, 0), b);
    assert_eq!(searcher.killer_moves().get(3, 1), a);
    searcher.update_killers(3, a);
    assert_eq!(searcher.killer_moves().get(3, 0), b);
    assert_eq!(searcher.killer_moves().get(3, 1), a);
    searcher.update_killers(3, capture(7, 8));
    assert_eq!(searcher.killer_moves().get(3, 0), b);
    searcher.update_killers(3, c);
    assert_eq!(searcher.killer_moves().get(3, 0), c);
    assert_eq!(searcher.killer_moves().get(3, 1), b);
    assert_eq!(searcher.killer_moves().get(2, 0), Move::null());
}

#[test]
fn history_counts_quiet_moves_by_depth() {
    let mut searcher = Searcher::new();
    searcher.update_history_heuristic(4, &quiet(10, 20));
    searcher.update_history_heuristic(3, &quiet(10, 20));
    searcher.update_history_heuristic(9, &capture(10, 20));
    assert_eq!(searcher.history_moves().get(10, 20), 7);
    assert_eq!(searcher.history_moves().get(20, 10), 0);
    searcher.clear_heuristics();
    assert_eq!(searcher.history_moves().get(10, 20), 0);
}

#[test]
fn sort_moves_takes_first_of_equal_best() {
    let a = quiet(1, 1);
    let b = quiet(2, 2);
    let c = quiet(3, 3);
    let d = quiet(4, 4);
    let mut moves = vec![(3, a), (5, b), (5, c), (1, d)];
    Searcher::sort_moves(0, &mut moves);
    assert_eq!(moves, vec![(5, b), (3, a), (5, c), (1, d)]);
    Searcher::sort_moves(1, &mut moves);
    assert_eq!(moves, vec![(5, b), (5, c), (3, a), (1, d)]);
    Searcher::sort_moves(3, &mut moves);
    assert_eq!(moves, vec![(5, b), (5, c), (3, a), (1, d)]);
    let mut zeros = vec![(0, a), (0, b)];
    Searcher::sort_moves(0, &mut zeros);
    assert_eq!(zeros, vec![(0, a), (0, b)]);
    Searcher::sort_moves(7, &mut moves);
    assert_eq!(moves.len(), 4);
}

#[test]
fn promote_move_marks_first_match_only() {
    let a = quiet(1, 1);
    let b = quiet(2, 2);
    let mut moves = vec![(3, a), (5, b), (4, b)];
    Searcher::promote_move(&mut moves, b);
    assert_eq!(moves, vec![(3, a), (usize::MAX, b), (4, b)]);
    let mut unchanged = vec![(3, a)];
    Searcher::promote_move(&mut unchanged, b);
    assert_eq!(unchanged, vec![(3, a)]);
}

fn entry(flag: EntryFlag, value: isize, depth: u8) -> Entry {
    Entry { key: 9, flag, value, move_: quiet(1, 2), depth }
}

#[test]
fn cache_cutoff_by_flag() {
    let exact = Some(entry(EntryFlag::Exact, 50, 4));
    assert_eq!(Searcher::cache_cutoff(exact, 3, 0, 100), Some(50));
    assert_eq!(Searcher::cache_cutoff(exact, 3, 60, 100), Some(60));
    assert_eq!(Searcher::cache_cutoff(exact, 3, 0, 50), Some(50));
    assert_eq!(Searcher::cache_cutoff(exact, 5, 0, 100), None);
    let lower = Some(entry(EntryFlag::Beta, 50, 4));
    assert_eq!(Searcher::cache_cutoff(lower, 4, 0, 40), Some(40));
    assert_eq!(Searcher::cache_cutoff(lower, 4, 0, 60), None);
    let upper = Some(entry(EntryFlag::Alpha, 50, 4));
    assert_eq!(Searcher::cache_cutoff(upper, 4, 55, 60), Some(55));
    assert_eq!(Searcher::cache_cutoff(upper, 4, 45, 60), None);
    assert_eq!(Searcher::cache_cutoff(Some(entry(EntryFlag::Null, 50, 4)), 1, 0, 100), None);
    assert_eq!(Searcher::cache_cutoff(None, 1, 0, 100), None);
}

#[test]
fn cached_move_is_scored_first() {
    let mut tree = Tree::new();
    let root = tree.add(0);
    let x = tree.add(0);
    let y = tree.add(0);
    let mx = quiet(1, 2);
    let my = quiet(1, 3);
    tree.link(root, mx, x, true);
    tree.link(root, my, y, true);
    let mut searcher = Searcher::new();
    let mut pos = TreePos::at(&tree, root);
    let mut eval = Eval { evaluations: 0 };
    let before = searcher.get_scored_pseudo_moves(&mut eval, &Rules, &mut pos, 1);
    assert_eq!(before, vec![(0, mx), (0, my)]);
    // Depth 1: both replies score 0, the first is kept as best.
    searcher.alphabeta(&mut pos, &mut eval, &Rules, 1, -isize::MAX, isize::MAX, true);
    let cached = searcher.cached_entry(root as u64).unwrap();
    assert_eq!(cached.flag, EntryFlag::Exact);
    let after = searcher.get_scored_pseudo_moves(&mut eval, &Rules, &mut pos, 1);
    let promoted: Vec<Move> = after.iter().filter(|p| p.0 == usize::MAX).map(|p| p.1).collect();
    assert_eq!(promoted, vec![cached.move_]);
}

#[test]
fn capture_list_holds_only_captures() {
    let mut tree = Tree::new();
    let root = tree.add(0);
    let x = tree.add(0);
    let y = tree.add(0);
    tree.link(root, quiet(1, 2), x, true);
    tree.link(root, capture(1, 3), y, true);
    let mut searcher = Searcher::new();
    let mut pos = TreePos::at(&tree, root);
    let mut eval = Eval { evaluations: 0 };
    let caps = searcher.get_scored_capture_moves(&mut eval, &Rules, &mut pos, 0);
    assert_eq!(caps, vec![(10_003, capture(1, 3))]);
}

#[test]
fn quiesce_stands_pat_and_chases_captures() {
    let mut tree = Tree::new();
    let root = tree.add(10);
    let after = tree.add(-200);
    tree.link(root, capture(1, 2), after, true);
    let mut searcher = Searcher::new();
    let mut pos = TreePos::at(&tree, root);
    let mut eval = Eval { evaluations: 0 };
    assert_eq!(searcher.quiesce(&mut pos, &mut eval, &Rules, 0, -1000, 1000), 200);
    assert_eq!(searcher.quiesce(&mut pos, &mut eval, &Rules, 0, -1000, 5), 5);
    assert_eq!(searcher.quiesce(&mut pos, &mut eval, &Rules, 0, 300, 400), 300);
    assert_eq!(pos.current, root);
}

// A line of single legal quiet moves after `from`, the scores of the
// nodes alternating between 900 and -900.
fn line(tree: &mut Tree, from: usize, first_eval: isize, len: u8) {
    let mut current = from;
    let mut eval = first_eval;
    for k in 0..len {
        let next = tree.add(eval);
        tree.link(current, quiet(20 + k, 21 + k), next, true);
        current = next;
        eval = -eval;
    }
}

// A node where the side to move is far ahead, whether it moves or passes:
// the null-move search fails high against any beta below 900.
fn null_move_tree(can_null: bool, in_check: bool) -> Tree {
    let mut tree = Tree::new();
    let root = tree.add(900);
    tree.nodes[root].can_null = can_null;
    tree.nodes[root].in_check = in_check;
    let passed = tree.add(-900);
    tree.nodes[root].null_child = Some(passed);
    line(&mut tree, passed, 900, 6);
    let child = tree.add(-900);
    tree.link(root, quiet(1, 2), child, true);
    line(&mut tree, child, 900, 6);
    tree
}

#[test]
fn null_move_cutoff_returns_beta() {
    let tree = null_move_tree(true, false);
    let mut searcher = Searcher::new();
    let mut pos = TreePos::at(&tree, 0);
    let mut eval = Eval { evaluations: 0 };
    assert_eq!(searcher.try_null_move(&mut pos, &mut eval, &Rules, 4, 0, 100, true), Some(100));
    assert_eq!(searcher.try_null_move(&mut pos, &mut eval, &Rules, 4, 0, 100, false), None);
    assert_eq!(searcher.try_null_move(&mut pos, &mut eval, &Rules, 3, 0, 100, true), None);
    assert_eq!(pos.current, 0);
    let mut s2 = Searcher::new();
    assert_eq!(s2.alphabeta(&mut pos, &mut eval, &Rules, 4, 0, 100, true), 100);
}

#[test]
fn null_move_not_tried_in_check_or_when_unsafe() {
    for (can_null, in_check) in [(false, false), (true, true)] {
        let tree = null_move_tree(can_null, in_check);
        let mut searcher = Searcher::new();
        let mut pos = TreePos::at(&tree, 0);
        let mut eval = Eval { evaluations: 0 };
        assert_eq!(searcher.try_null_move(&mut pos, &mut eval, &Rules, 5, 0, 100, true), None);
    }
}

#[test]
fn null_move_result_never_above_plain_search() {
    let tree = null_move_tree(true, false);
    let mut eval = Eval { evaluations: 0 };
    let mut pos = TreePos::at(&tree, 0);
    let full = (-isize::MAX, isize::MAX);
    let with_null = Searcher::new().alphabeta(&mut pos, &mut eval, &Rules, 4, full.0, full.1, true);
    let without = Searcher::new().alphabeta(&mut pos, &mut eval, &Rules, 4, full.0, full.1, false);
    assert_eq!(with_null, without);
    assert_eq!(without, 900);
    // A cutoff gives beta, which the plain search also reaches.
    let with_null = Searcher::new().alphabeta(&mut pos, &mut eval, &Rules, 4, 0, 100, true);
    let without = Searcher::new().alphabeta(&mut pos, &mut eval, &Rules, 4, 0, 100, false);
    assert_eq!(with_null, 100);
    assert!(with_null <= without);
}

#[test]
fn clearing_resets_tables_and_counters() {
    let tree = random_tree(5, 4, 4);
    let mut searcher = Searcher::new();
    let mut pos = TreePos::at(&tree, 0);
    let mut eval = Eval { evaluations: 0 };
    searcher.alphabeta(&mut pos, &mut eval, &Rules, 3, -isize::MAX, isize::MAX, true);
    assert!(searcher.nodes_searched() > 0);
    searcher.clear_search_stats();
    assert_eq!(searcher.nodes_searched(), 0);
    assert_eq!(searcher.nodes_fail_high(), 0);
    assert_eq!(searcher.nodes_fail_high_first(), 0);
    searcher.update_killers(1, quiet(3, 4));
    searcher.clear_heuristics();
    assert_eq!(searcher.killer_moves().get(1, 0), Move::null());
}

#[test]
fn move_accessors() {
    let m = Move::new(12, 28, true, 3);
    assert_eq!(m.get_from(), 12);
    assert_eq!(m.get_to(), 28);
    assert!(m.get_is_capture());
    assert!(!m.is_null());
    assert!(Move::null().is_null());
}

#[test]
fn searched_node_stores_its_bound() {
    let tree = null_move_tree(false, false);
    let mut pos = TreePos::at(&tree, 0);
    let mut eval = Eval { evaluations: 0 };
    let mut high = Searcher::new();
    assert_eq!(high.alphabeta(&mut pos, &mut eval, &Rules, 4, 0, 100, true), 100);
    let e = high.cached_entry(0).unwrap();
    assert_eq!((e.flag, e.value, e.depth, e.key), (EntryFlag::Beta, 100, 4, 0));
    let mut low = Searcher::new();
    assert_eq!(low.alphabeta(&mut pos, &mut eval, &Rules, 4, 1000, 2000, true), 1000);
    let e = low.cached_entry(0).unwrap();
    assert_eq!((e.flag, e.value, e.depth), (EntryFlag::Alpha, 1000, 4));
    let mut exact = Searcher::new();
    assert_eq!(exact.alphabeta(&mut pos, &mut eval, &Rules, 4, 0, 1000, true), 900);
    let e = exact.cached_entry(0).unwrap();
    assert_eq!((e.flag, e.value, e.move_), (EntryFlag::Exact, 900, quiet(1, 2)));
}
