use vstd::prelude::*;

verus! {

/// The named sprite index sequences that animations play.
pub struct SpriteAnimationSequences {
    /// The sequences with their names; a name occurs at most once.
    pub sequences: Vec<(String, Vec<u32>)>,
}

impl View for SpriteAnimationSequences {
    type V = Seq<(Seq<char>, Seq<u32>)>;

    open spec fn view(&self) -> Seq<(Seq<char>, Seq<u32>)> {
        self.sequences@.map_values(|e: (String, Vec<u32>)| (e.0@, e.1@))
    }
}

/// The name of Rockford's standing animation.
pub open spec fn rockford_standing_name() -> Seq<char> {
    "RockfordStanding"@
}

/// The name of the diamond's shining animation.
pub open spec fn diamond_shining_name() -> Seq<char> {
    "DiamondShining"@
}

/// Whether no name occurs twice among the entries.
pub open spec fn names_distinct(entries: Seq<(Seq<char>, Seq<u32>)>) -> bool {
    forall|i: int, j: int|
        0 <= i < entries.len() && 0 <= j < entries.len() && i != j ==> #[trigger] entries[i].0
            != #[trigger] entries[j].0
}

/// Whether `i` is the first entry named `name`.
pub open spec fn first_named(entries: Seq<(Seq<char>, Seq<u32>)>, name: Seq<char>, i: int) -> bool {
    &&& 0 <= i < entries.len()
    &&& entries[i].0 == name
    &&& forall|j: int| 0 <= j < i ==> #[trigger] entries[j].0 != name
}

impl SpriteAnimationSequences {
    /// The store the game starts with: Rockford standing (frames 0 to 6) and
    /// the diamond shining (40, 50, 60, 70, 41, 51, 61, 71).
    pub fn with_standard_sequences() -> (s: SpriteAnimationSequences)
        ensures
            s@ == seq![
                (rockford_standing_name(), seq![0u32, 1, 2, 3, 4, 5, 6]),
                (diamond_shining_name(), seq![40u32, 50, 60, 70, 41, 51, 61, 71]),
            ],
    {
        let standing: Vec<u32> = vec![0, 1, 2, 3, 4, 5, 6];
        let shining: Vec<u32> = vec![40, 50, 60, 70, 41, 51, 61, 71];
        let mut sequences: Vec<(String, Vec<u32>)> = Vec::new();
        sequences.push(("RockfordStanding".to_owned(), standing));
        sequences.push(("DiamondShining".to_owned(), shining));
        let s = SpriteAnimationSequences { sequences };
        assert(s@ =~= seq![
            (rockford_standing_name(), seq![0u32, 1, 2, 3, 4, 5, 6]),
            (diamond_shining_name(), seq![40u32, 50, 60, 70, 41, 51, 61, 71]),
        ]);
        s
    }

    /// The sequence stored under `name`, if there is one.
    pub fn get(&self, name: &String) -> (r: Option<&Vec<u32>>)
        ensures
            r is None <==> forall|i: int| 0 <= i < self@.len() ==> #[trigger] self@[i].0 != name@,
            r matches Some(v) ==> exists|i: int|
                #[trigger] first_named(self@, name@, i) && v@ == self@[i].1,
    {
        let n = self.sequences.len();
        let mut i: usize = 0;
        while i < n
            invariant
                n == self.sequences@.len(),
                0 <= i <= n,
                forall|j: int| 0 <= j < i ==> #[trigger] self@[j].0 != name@,
            decreases n - i,
        {
            if self.sequences[i].0 == *name {
                assert(first_named(self@, name@, i as int));
                return Some(&self.sequences[i].1);
            }
            i = i + 1;
        }
        None
    }
}

/// The standard store names each sequence once, and looking up Rockford's
/// standing animation gives its seven frames.
pub proof fn lemma_standard_sequences_distinct(s: Seq<(Seq<char>, Seq<u32>)>)
    requires
        s == seq![
            (rockford_standing_name(), seq![0u32, 1, 2, 3, 4, 5, 6]),
            (diamond_shining_name(), seq![40u32, 50, 60, 70, 41, 51, 61, 71]),
        ],
    ensures
        names_distinct(s),
        first_named(s, rockford_standing_name(), 0),
        first_named(s, diamond_shining_name(), 1),
{
    reveal_strlit("RockfordStanding");
    reveal_strlit("DiamondShining");
    assert(rockford_standing_name()[0] != diamond_shining_name()[0]);
}

/// In a store whose names are distinct, the first entry with a name is the only one.
pub proof fn lemma_first_named_unique(entries: Seq<(Seq<char>, Seq<u32>)>, name: Seq<char>, i: int, k: int)
    requires
        names_distinct(entries),
        first_named(entries, name, i),
        0 <= k < entries.len(),
        entries[k].0 == name,
    ensures
        k == i,
{
    if k != i {
        assert(entries[i].0 != entries[k].0);
    }
}

} // verus!
