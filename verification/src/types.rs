use vstd::prelude::*;

verus! {

/// Number of directions on the radar ring.
pub const DIRECTION_COUNT: usize = 8;

/// A channel of a channel-energy measurement.
#[derive(Debug, Clone, Copy, PartialEq, Eq, Structural)]
pub enum EnergyChannel {
    FL,
    FR,
    C,
    SL,
    SR,
    RL,
    RR,
    Lfe,
}

/// The channel layout an audio source delivers.
#[derive(Debug, Clone, Copy, PartialEq, Eq, Structural)]
pub enum ChannelLayout {
    Stereo,
    Surround71,
}

/// One of the eight directions of the radar ring, clockwise from the front.
#[derive(Debug, Clone, Copy, PartialEq, Eq, Structural)]
pub enum Direction {
    F,
    FR,
    R,
    BR,
    B,
    BL,
    L,
    FL,
}

impl ChannelLayout {
    /// The text shown for the layout.
    pub open spec fn label_text(self) -> Seq<char> {
        match self {
            ChannelLayout::Stereo => "Stereo"@,
            ChannelLayout::Surround71 => "7.1"@,
        }
    }

    pub fn label(self) -> (text: &'static str)
        ensures
            text@ == self.label_text(),
    {
        match self {
            ChannelLayout::Stereo => "Stereo",
            ChannelLayout::Surround71 => "7.1",
        }
    }
}

impl EnergyChannel {
    /// All channels, in display order.
    pub const ALL: [EnergyChannel; 8] = [
        EnergyChannel::FL,
        EnergyChannel::FR,
        EnergyChannel::C,
        EnergyChannel::SL,
        EnergyChannel::SR,
        EnergyChannel::RL,
        EnergyChannel::RR,
        EnergyChannel::Lfe,
    ];

    /// Position of the channel in `ALL`.
    pub open spec fn position(self) -> int {
        match self {
            EnergyChannel::FL => 0,
            EnergyChannel::FR => 1,
            EnergyChannel::C => 2,
            EnergyChannel::SL => 3,
            EnergyChannel::SR => 4,
            EnergyChannel::RL => 5,
            EnergyChannel::RR => 6,
            EnergyChannel::Lfe => 7,
        }
    }

    /// The element id of the channel's meter.
    pub open spec fn id_text(self) -> Seq<char> {
        match self {
            EnergyChannel::FL => "energy-fl"@,
            EnergyChannel::FR => "energy-fr"@,
            EnergyChannel::C => "energy-c"@,
            EnergyChannel::SL => "energy-sl"@,
            EnergyChannel::SR => "energy-sr"@,
            EnergyChannel::RL => "energy-rl"@,
            EnergyChannel::RR => "energy-rr"@,
            EnergyChannel::Lfe => "energy-lfe"@,
        }
    }

    /// The text shown for the channel.
    pub open spec fn label_text(self) -> Seq<char> {
        match self {
            EnergyChannel::FL => "FL"@,
            EnergyChannel::FR => "FR"@,
            EnergyChannel::C => "C"@,
            EnergyChannel::SL => "SL"@,
            EnergyChannel::SR => "SR"@,
            EnergyChannel::RL => "RL"@,
            EnergyChannel::RR => "RR"@,
            EnergyChannel::Lfe => "LFE"@,
        }
    }

    pub fn id(self) -> (text: &'static str)
        ensures
            text@ == self.id_text(),
    {
        match self {
            EnergyChannel::FL => "energy-fl",
            EnergyChannel::FR => "energy-fr",
            EnergyChannel::C => "energy-c",
            EnergyChannel::SL => "energy-sl",
            EnergyChannel::SR => "energy-sr",
            EnergyChannel::RL => "energy-rl",
            EnergyChannel::RR => "energy-rr",
            EnergyChannel::Lfe => "energy-lfe",
        }
    }

    pub fn label(self) -> (text: &'static str)
        ensures
            text@ == self.label_text(),
    {
        match self {
            EnergyChannel::FL => "FL",
            EnergyChannel::FR => "FR",
            EnergyChannel::C => "C",
            EnergyChannel::SL => "SL",
            EnergyChannel::SR => "SR",
            EnergyChannel::RL => "RL",
            EnergyChannel::RR => "RR",
            EnergyChannel::Lfe => "LFE",
        }
    }
}

impl Direction {
    /// All directions, clockwise from the front; `ALL[i]` is the direction with index `i`.
    pub const ALL: [Direction; DIRECTION_COUNT] = [
        Direction::F,
        Direction::FR,
        Direction::R,
        Direction::BR,
        Direction::B,
        Direction::BL,
        Direction::L,
        Direction::FL,
    ];

    /// The slot of the direction in a score array.
    pub open spec fn spec_index(self) -> int {
        match self {
            Direction::F => 0,
            Direction::FR => 1,
            Direction::R => 2,
            Direction::BR => 3,
            Direction::B => 4,
            Direction::BL => 5,
            Direction::L => 6,
            Direction::FL => 7,
        }
    }

    /// The text shown for the direction.
    pub open spec fn label_text(self) -> Seq<char> {
        match self {
            Direction::F => "F"@,
            Direction::FR => "FR"@,
            Direction::R => "R"@,
            Direction::BR => "BR"@,
            Direction::B => "B"@,
            Direction::BL => "BL"@,
            Direction::L => "L"@,
            Direction::FL => "FL"@,
        }
    }

    pub fn label(self) -> (text: &'static str)
        ensures
            text@ == self.label_text(),
    {
        match self {
            Direction::F => "F",
            Direction::FR => "FR",
            Direction::R => "R",
            Direction::BR => "BR",
            Direction::B => "B",
            Direction::BL => "BL",
            Direction::L => "L",
            Direction::FL => "FL",
        }
    }

    /// The slot of the direction in a score array of `DIRECTION_COUNT` entries.
    pub fn index(self) -> (i: usize)
        ensures
            i == self.spec_index(),
            i < DIRECTION_COUNT,
    {
        match self {
            Direction::F => 0,
            Direction::FR => 1,
            Direction::R => 2,
            Direction::BR => 3,
            Direction::B => 4,
            Direction::BL => 5,
            Direction::L => 6,
            Direction::FL => 7,
        }
    }

    /// The direction whose score sits in slot `i`, if there is one.
    pub fn from_index(i: usize) -> (direction: Option<Direction>)
        ensures
            i < DIRECTION_COUNT <==> direction is Some,
            direction matches Some(d) ==> d.spec_index() == i && d == Direction::ALL@[i as int],
    {
        if i < DIRECTION_COUNT {
            Some(Direction::ALL[i])
        } else {
            None
        }
    }
}

impl Direction {
    /// The next direction on the ring, clockwise.
    pub open spec fn spec_clockwise(self) -> Direction {
        match self {
            Direction::F => Direction::FR,
            Direction::FR => Direction::R,
            Direction::R => Direction::BR,
            Direction::BR => Direction::B,
            Direction::B => Direction::BL,
            Direction::BL => Direction::L,
            Direction::L => Direction::FL,
            Direction::FL => Direction::F,
        }
    }

    /// The next direction on the ring, counterclockwise.
    pub open spec fn spec_counterclockwise(self) -> Direction {
        match self {
            Direction::F => Direction::FL,
            Direction::FR => Direction::F,
            Direction::R => Direction::FR,
            Direction::BR => Direction::R,
            Direction::B => Direction::BR,
            Direction::BL => Direction::B,
            Direction::L => Direction::BL,
            Direction::FL => Direction::L,
        }
    }

    /// The direction lies in the rear half of the ring, behind the listener's sides.
    pub open spec fn is_rear(self) -> bool {
        self == Direction::BR || self == Direction::B || self == Direction::BL
    }

    pub fn clockwise(self) -> (next: Direction)
        ensures
            next == self.spec_clockwise(),
    {
        match self {
            Direction::F => Direction::FR,
            Direction::FR => Direction::R,
            Direction::R => Direction::BR,
            Direction::BR => Direction::B,
            Direction::B => Direction::BL,
            Direction::BL => Direction::L,
            Direction::L => Direction::FL,
            Direction::FL => Direction::F,
        }
    }

    pub fn counterclockwise(self) -> (next: Direction)
        ensures
            next == self.spec_counterclockwise(),
    {
        match self {
            Direction::F => Direction::FL,
            Direction::FR => Direction::F,
            Direction::R => Direction::FR,
            Direction::BR => Direction::R,
            Direction::B => Direction::BR,
            Direction::BL => Direction::B,
            Direction::L => Direction::BL,
            Direction::FL => Direction::L,
        }
    }
}

impl EnergyChannel {
    /// The direction a channel's speaker stands in; the LFE channel has none.
    pub open spec fn spec_home_direction(self) -> Option<Direction> {
        match self {
            EnergyChannel::FL => Some(Direction::FL),
            EnergyChannel::FR => Some(Direction::FR),
            EnergyChannel::C => Some(Direction::F),
            EnergyChannel::SL => Some(Direction::L),
            EnergyChannel::SR => Some(Direction::R),
            EnergyChannel::RL => Some(Direction::BL),
            EnergyChannel::RR => Some(Direction::BR),
            EnergyChannel::Lfe => None,
        }
    }

    /// The direction the channel's speaker stands in, which receives most of its energy
    /// in a 7.1 estimate; its two ring neighbours receive a share each. The LFE channel
    /// has no direction.
    pub fn home_direction(self) -> (direction: Option<Direction>)
        ensures
            direction == self.spec_home_direction(),
    {
        match self {
            EnergyChannel::FL => Some(Direction::FL),
            EnergyChannel::FR => Some(Direction::FR),
            EnergyChannel::C => Some(Direction::F),
            EnergyChannel::SL => Some(Direction::L),
            EnergyChannel::SR => Some(Direction::R),
            EnergyChannel::RL => Some(Direction::BL),
            EnergyChannel::RR => Some(Direction::BR),
            EnergyChannel::Lfe => None,
        }
    }
}

/// The directions a stereo estimate can score, from hard left to hard right.
pub const STEREO_ARC_DIRECTIONS: [Direction; 5] = [
    Direction::L,
    Direction::FL,
    Direction::F,
    Direction::FR,
    Direction::R,
];

/// Stepping clockwise and counterclockwise are inverse, each step moves one slot
/// around the ring of `DIRECTION_COUNT` slots, and eight steps come back.
pub proof fn lemma_ring_steps(d: Direction)
    ensures
        d.spec_clockwise().spec_counterclockwise() == d,
        d.spec_counterclockwise().spec_clockwise() == d,
        d.spec_clockwise().spec_index() == (d.spec_index() + 1) % (DIRECTION_COUNT as int),
        d.spec_counterclockwise().spec_index() == (d.spec_index() + DIRECTION_COUNT - 1) % (
        DIRECTION_COUNT as int),
        d.spec_clockwise() != d,
        d.spec_clockwise() != d.spec_counterclockwise(),
        d.spec_clockwise().spec_clockwise().spec_clockwise().spec_clockwise().spec_clockwise().spec_clockwise().spec_clockwise().spec_clockwise()
            == d,
{
}

/// Distinct speaker channels stand in distinct directions.
pub proof fn lemma_speaker_homes_distinct(a: EnergyChannel, b: EnergyChannel)
    requires
        a != b,
        a.spec_home_direction() is Some,
    ensures
        a.spec_home_direction() != b.spec_home_direction(),
{
}

/// A 7.1 estimate can score the whole ring: every direction is the home direction of
/// a speaker channel or a ring neighbour of one.
pub proof fn lemma_surround_covers_ring(d: Direction)
    ensures
        exists|c: EnergyChannel|
            #![trigger c.spec_home_direction()]
            c.spec_home_direction() matches Some(home) && (home == d || home.spec_clockwise() == d
                || home.spec_counterclockwise() == d),
{
    let witness = match d {
        Direction::F => EnergyChannel::C,
        Direction::FR => EnergyChannel::FR,
        Direction::R => EnergyChannel::SR,
        Direction::BR => EnergyChannel::RR,
        Direction::B => EnergyChannel::RR,
        Direction::BL => EnergyChannel::RL,
        Direction::L => EnergyChannel::SL,
        Direction::FL => EnergyChannel::FL,
    };
    assert(witness.spec_home_direction() is Some);
}

/// A stereo estimate stays on the front half of the ring: its directions run from
/// left to right through the front, one ring step apart, and none lies behind.
pub proof fn lemma_stereo_arc_front_half()
    ensures
        forall|k: int| 0 <= k < 5 ==> !(#[trigger] STEREO_ARC_DIRECTIONS@[k]).is_rear(),
        forall|k: int|
            0 <= k < 4 ==> (#[trigger] STEREO_ARC_DIRECTIONS@[k]).spec_clockwise()
                == STEREO_ARC_DIRECTIONS@[k + 1],
        STEREO_ARC_DIRECTIONS@[0] == Direction::L,
        STEREO_ARC_DIRECTIONS@[4] == Direction::R,
{
}

/// `Direction::ALL` lists every direction exactly once, each at its own slot:
/// the direction at slot `i` has index `i`, and every direction sits at its index.
pub proof fn lemma_direction_slots()
    ensures
        Direction::ALL@.len() == DIRECTION_COUNT,
        forall|i: int| 0 <= i < DIRECTION_COUNT ==> #[trigger] Direction::ALL@[i].spec_index() == i,
        forall|d: Direction| #[trigger] Direction::ALL@[d.spec_index()] == d,
        forall|d: Direction| 0 <= #[trigger] d.spec_index() < DIRECTION_COUNT,
{
}

/// No two directions share a label.
pub proof fn lemma_direction_labels_distinct(a: Direction, b: Direction)
    requires
        a != b,
    ensures
        a.label_text() != b.label_text(),
{
    reveal_strlit("F");
    reveal_strlit("FR");
    reveal_strlit("R");
    reveal_strlit("BR");
    reveal_strlit("B");
    reveal_strlit("BL");
    reveal_strlit("L");
    reveal_strlit("FL");
    if a.label_text() == b.label_text() {
        let (x, y) = (a.label_text(), b.label_text());
        assert(x.len() == y.len() && x[0] == y[0] && x[x.len() - 1] == y[y.len() - 1]);
    }
}

/// `EnergyChannel::ALL` lists every channel exactly once, in the order of `position`.
pub proof fn lemma_channel_slots()
    ensures
        EnergyChannel::ALL@.len() == 8,
        forall|i: int| 0 <= i < 8 ==> #[trigger] EnergyChannel::ALL@[i].position() == i,
        forall|c: EnergyChannel| #[trigger] EnergyChannel::ALL@[c.position()] == c,
{
}

/// No two channels share a meter id or a label.
pub proof fn lemma_channel_texts_distinct(a: EnergyChannel, b: EnergyChannel)
    requires
        a != b,
    ensures
        a.id_text() != b.id_text(),
        a.label_text() != b.label_text(),
{
    reveal_strlit("energy-fl");
    reveal_strlit("energy-fr");
    reveal_strlit("energy-c");
    reveal_strlit("energy-sl");
    reveal_strlit("energy-sr");
    reveal_strlit("energy-rl");
    reveal_strlit("energy-rr");
    reveal_strlit("energy-lfe");
    reveal_strlit("FL");
    reveal_strlit("FR");
    reveal_strlit("C");
    reveal_strlit("SL");
    reveal_strlit("SR");
    reveal_strlit("RL");
    reveal_strlit("RR");
    reveal_strlit("LFE");
    if a.id_text() == b.id_text() {
        let (x, y) = (a.id_text(), b.id_text());
        assert(x.len() == y.len() && x[7] == y[7] && x[x.len() - 1] == y[y.len() - 1]);
    }
    if a.label_text() == b.label_text() {
        let (x, y) = (a.label_text(), b.label_text());
        assert(x.len() == y.len() && x[0] == y[0] && x[x.len() - 1] == y[y.len() - 1]);
    }
}

} // verus!
