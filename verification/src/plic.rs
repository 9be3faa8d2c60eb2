//! The platform-level interrupt controller (PLIC) and its driver.
//!
//! `Plic` holds what the controller's registers hold and behaves as the
//! controller does: a source that a device raises becomes pending, the claim
//! hands out the pending source that ranks first, and the completion lets
//! that source through again. The driver's operations work on it as they work
//! on the registers of the machine.

use vstd::prelude::*;

verus! {

/// Memory address of the priority words, one per source.
pub const PLIC_PRIORITY: u64 = 0x0c00_0000;

/// Memory address of the pending bits.
pub const PLIC_PENDING: u64 = 0x0c00_1000;

/// Memory address of the enable bits.
pub const PLIC_INT_ENABLE: u64 = 0x0c00_2000;

/// Memory address of the threshold word.
pub const PLIC_THRESHOLD: u64 = 0x0c20_0000;

/// Memory address of the claim and completion word.
pub const PLIC_CLAIM: u64 = 0x0c20_0004;

/// Number of interrupt sources that the one-word bitsets of the controller
/// have a bit for. Source 0 does not exist.
pub const SOURCES: u32 = 32;

/// Whether bit `id` of `word` is set.
pub open spec fn bit(word: u32, id: u32) -> bool {
    (word >> id) & 1 == 1
}

/// The sources whose bit is set in `word`.
pub open spec fn sources(word: u32) -> Set<u32> {
    Set::new(|id: u32| id < SOURCES && bit(word, id))
}

/// The state of the controller.
pub struct PlicView {
    /// The priority of each source, 0 to 7. Priority 0 masks the source.
    pub priority: Seq<u32>,
    /// The sources that wait to be claimed.
    pub pending: Set<u32>,
    /// The sources that may interrupt.
    pub enabled: Set<u32>,
    /// No source with a priority at or below it is handed out.
    pub threshold: u32,
    /// The sources that were claimed and are not completed yet.
    pub in_service: Set<u32>,
}

impl PlicView {
    /// What holds of every state of the controller.
    pub open spec fn wf(self) -> bool {
        &&& self.priority.len() == SOURCES
        &&& forall|id: int| 0 <= id < SOURCES ==> #[trigger] self.priority[id] <= 7
        &&& self.priority[0] == 0
        &&& self.threshold <= 7
        &&& forall|id: u32| #[trigger] self.pending.contains(id) ==> 1 <= id < SOURCES
        &&& forall|id: u32| #[trigger] self.enabled.contains(id) ==> 1 <= id < SOURCES
        &&& forall|id: u32| #[trigger] self.in_service.contains(id) ==> 1 <= id < SOURCES
        &&& self.pending.disjoint(self.in_service)
    }

    /// Whether the claim may hand the source out: it waits, it is enabled,
    /// and its priority is above the threshold.
    pub open spec fn claimable(self, id: u32) -> bool {
        &&& 1 <= id < SOURCES
        &&& self.pending.contains(id)
        &&& self.enabled.contains(id)
        &&& self.priority[id as int] > self.threshold
    }

    /// Whether `id` ranks before `other`: by the higher priority, and among
    /// equals by the lower id.
    pub open spec fn ranks_before(self, id: u32, other: u32) -> bool {
        self.priority[id as int] > self.priority[other as int] || (self.priority[id as int]
            == self.priority[other as int] && id <= other)
    }

    /// Whether `id` is the source that the next claim hands out.
    pub open spec fn is_next(self, id: u32) -> bool {
        &&& self.claimable(id)
        &&& forall|other: u32| #[trigger] self.claimable(other) ==> self.ranks_before(id, other)
    }

    /// The state after the claim of `id`.
    pub open spec fn claim(self, id: u32) -> PlicView {
        PlicView {
            pending: self.pending.remove(id),
            in_service: self.in_service.insert(id),
            ..self
        }
    }

    /// The state after the completion of `id`.
    pub open spec fn complete(self, id: u32) -> PlicView {
        PlicView { in_service: self.in_service.remove(id), ..self }
    }

    /// The state after a device raises source `id`. The controller lets no
    /// second request of a source through before the first is completed.
    pub open spec fn raise(self, id: u32) -> PlicView {
        if 1 <= id < SOURCES && !self.in_service.contains(id) {
            PlicView { pending: self.pending.insert(id), ..self }
        } else {
            self
        }
    }

    /// The state after source `id` is enabled.
    pub open spec fn enable(self, id: u32) -> PlicView {
        if 1 <= id < SOURCES {
            PlicView { enabled: self.enabled.insert(id), ..self }
        } else {
            self
        }
    }

    /// The state after the priority word of source `id` is written.
    pub open spec fn set_priority(self, id: u32, priority: u32) -> PlicView {
        if 1 <= id < SOURCES {
            PlicView { priority: self.priority.update(id as int, priority), ..self }
        } else {
            self
        }
    }
}

/// The interrupt controller.
pub struct Plic {
    priority: [u32; 32],
    pending: u32,
    enabled: u32,
    threshold: u32,
    in_service: u32,
}

impl View for Plic {
    type V = PlicView;

    closed spec fn view(&self) -> PlicView {
        PlicView {
            priority: self.priority@,
            pending: sources(self.pending),
            enabled: sources(self.enabled),
            threshold: self.threshold,
            in_service: sources(self.in_service),
        }
    }
}

proof fn lemma_bit_of_zero(id: u32)
    by (bit_vector)
    requires
        id < 32,
    ensures
        !bit(0, id),
{
}

proof fn lemma_bit_tested(word: u32, id: u32)
    by (bit_vector)
    requires
        id < 32,
    ensures
        (word & (1u32 << id) != 0) == bit(word, id),
{
}

proof fn lemma_bit_set(word: u32, id: u32, other: u32)
    by (bit_vector)
    requires
        id < 32,
        other < 32,
    ensures
        bit(word | (1u32 << id), other) == (bit(word, other) || other == id),
{
}

proof fn lemma_bit_cleared(word: u32, id: u32, other: u32)
    by (bit_vector)
    requires
        id < 32,
        other < 32,
    ensures
        bit(word & !(1u32 << id), other) == (bit(word, other) && other != id),
{
}

proof fn lemma_bit_zero_cleared(word: u32, other: u32)
    by (bit_vector)
    requires
        other < 32,
    ensures
        bit(word & !1u32, other) == (bit(word, other) && other != 0),
{
}

proof fn lemma_bits_apart(a: u32, b: u32, id: u32)
    by (bit_vector)
    requires
        id < 32,
        a & b == 0,
    ensures
        !(bit(a, id) && bit(b, id)),
{
}

proof fn lemma_claim_bits(pending: u32, in_service: u32, id: u32)
    by (bit_vector)
    requires
        1 <= id < 32,
        pending & in_service == 0,
        pending & 1 == 0,
        in_service & 1 == 0,
    ensures
        (pending & !(1u32 << id)) & 1 == 0,
        (pending & !(1u32 << id)) & in_service == 0,
        (in_service | (1u32 << id)) & 1 == 0,
        (pending & !(1u32 << id)) & (in_service | (1u32 << id)) == 0,
{
}

proof fn lemma_complete_bits(pending: u32, in_service: u32, id: u32)
    by (bit_vector)
    requires
        id < 32,
        pending & in_service == 0,
        in_service & 1 == 0,
    ensures
        (in_service & !(1u32 << id)) & 1 == 0,
        pending & (in_service & !(1u32 << id)) == 0,
{
}

proof fn lemma_raise_bits(pending: u32, in_service: u32, id: u32)
    by (bit_vector)
    requires
        1 <= id < 32,
        pending & in_service == 0,
        pending & 1 == 0,
        in_service & (1u32 << id) == 0,
    ensures
        (pending | (1u32 << id)) & 1 == 0,
        (pending | (1u32 << id)) & in_service == 0,
{
}

proof fn lemma_low_bit_clear(word: u32)
    by (bit_vector)
    ensures
        (word & 1 == 0) == !bit(word, 0),
        (word & !1u32) & 1 == 0,
        0u32 & 1 == 0,
{
}

proof fn lemma_three_bits(level: u8)
    by (bit_vector)
    ensures
        (level & 7) == level % 8,
        ((level as u32) & 7) == level % 8,
{
}

impl Plic {
    #[verifier::type_invariant]
    spec fn inv(self) -> bool {
        &&& forall|id: int| 0 <= id < 32 ==> #[trigger] self.priority@[id] <= 7
        &&& self.priority@[0] == 0
        &&& self.threshold <= 7
        &&& self.pending & 1 == 0
        &&& self.enabled & 1 == 0
        &&& self.in_service & 1 == 0
        &&& self.pending & self.in_service == 0
    }

    proof fn lemma_view_wf(self)
        requires
            self.inv(),
        ensures
            self@.wf(),
    {
        lemma_low_bit_clear(self.pending);
        lemma_low_bit_clear(self.enabled);
        lemma_low_bit_clear(self.in_service);
        assert forall|id: u32| self@.pending.contains(id) implies !self@.in_service.contains(
            id,
        ) by {
            lemma_bits_apart(self.pending, self.in_service, id);
        }
    }

    /// A controller in which no source is pending, enabled or in service,
    /// and every priority and the threshold are 0.
    pub fn new() -> (plic: Plic)
        ensures
            plic@.wf(),
            plic@.priority == Seq::new(SOURCES as nat, |id: int| 0u32),
            plic@.pending.is_empty(),
            plic@.enabled.is_empty(),
            plic@.in_service.is_empty(),
            plic@.threshold == 0,
    {
        let priority = [0u32;32];
        proof {
            lemma_low_bit_clear(0);
            assert(0u32 & 0u32 == 0) by (bit_vector);
            assert(forall|id: int| 0 <= id < 32 ==> priority@[id] == 0);
        }
        let plic = Plic { priority, pending: 0, enabled: 0, threshold: 0, in_service: 0 };
        proof {
            plic.lemma_view_wf();
            assert(plic@.priority =~= Seq::new(SOURCES as nat, |id: int| 0u32));
            assert forall|id: u32| !sources(0).contains(id) by {
                if id < 32 {
                    lemma_bit_of_zero(id);
                }
            }
        }
        plic
    }

    /// A device raises source `id`: the source becomes pending, unless it is
    /// in service. There is no source 0 and none from `SOURCES` on.
    pub fn raise(&mut self, id: u32)
        ensures
            final(self)@ == old(self)@.raise(id),
            final(self)@.wf(),
    {
        proof {
            use_type_invariant(&*self);
        }
        if 1 <= id && id < SOURCES {
            let mask: u32 = 1 << id;
            proof {
                lemma_bit_tested(self.in_service, id);
            }
            if self.in_service & mask == 0 {
                let ghost before = self.pending;
                proof {
                    lemma_raise_bits(self.pending, self.in_service, id);
                }
                self.pending = self.pending | mask;
                proof {
                    assert forall|other: u32| other < 32 implies #[trigger] bit(self.pending, other) == (bit(
                        before,
                        other,
                    ) || other == id) by {
                        lemma_bit_set(before, id, other);
                    }
                    assert(sources(self.pending) =~= sources(before).insert(id));
                }
            }
        }
        proof {
            use_type_invariant(&*self);
            self.lemma_view_wf();
        }
    }

    /// The priority of a source.
    pub fn priority(&self, id: u32) -> (level: u32)
        requires
            id < SOURCES,
        ensures
            level == self@.priority[id as int],
    {
        self.priority[id as usize]
    }

    /// The threshold.
    pub fn threshold(&self) -> (level: u32)
        ensures
            level == self@.threshold,
    {
        self.threshold
    }

    /// Whether a source is enabled.
    pub fn is_enabled(&self, id: u32) -> (enabled: bool)
        requires
            id < SOURCES,
        ensures
            enabled == self@.enabled.contains(id),
    {
        proof {
            lemma_bit_tested(self.enabled, id);
        }
        self.enabled & (1u32 << id) != 0
    }

    /// Whether a source was claimed and is not completed yet.
    pub fn is_in_service(&self, id: u32) -> (serving: bool)
        requires
            id < SOURCES,
        ensures
            serving == self@.in_service.contains(id),
    {
        proof {
            lemma_bit_tested(self.in_service, id);
        }
        self.in_service & (1u32 << id) != 0
    }
}

/// The source that a word read from the claim register stands for: 0 says
/// that there is nothing to claim.
pub fn claimed(word: u32) -> (id: Option<u32>)
    ensures
        id == (if word == 0 {
            None
        } else {
            Some(word)
        }),
{
    if word == 0 {
        None
    } else {
        Some(word)
    }
}

/// The word that sets the threshold to `tsh`: its low three bits.
pub fn threshold_word(tsh: u8) -> (word: u32)
    ensures
        word == tsh % 8,
{
    proof {
        lemma_three_bits(tsh);
    }
    let actual_threshold: u8 = tsh & 0b111;
    actual_threshold as u32
}

/// The word that sets a priority to `priority`: its low three bits.
pub fn priority_word(priority: u8) -> (word: u32)
    ensures
        word == priority % 8,
{
    proof {
        lemma_three_bits(priority);
    }
    priority as u32 & 7
}

/// Memory address of the priority word of source `id`.
pub fn priority_address(id: u32) -> (address: u64)
    ensures
        address == PLIC_PRIORITY + 4 * id,
{
    PLIC_PRIORITY + 4 * (id as u64)
}

/// The word in which the bit of source `id` alone is set.
pub fn source_bit(id: u32) -> (word: u32)
    requires
        id < SOURCES,
    ensures
        sources(word) == set![id],
{
    let word: u32 = 1 << id;
    proof {
        assert forall|other: u32| other < 32 implies #[trigger] bit(word, other) == (other == id) by {
            lemma_bit_set(0, id, other);
            lemma_bit_of_zero(other);
            assert(0u32 | (1u32 << id) == 1u32 << id) by (bit_vector);
        }
        assert(sources(word) =~= set![id]);
    }
    word
}

/// Claim the next interrupt: the pending, enabled source above the threshold
/// that ranks first. It stops being pending and is in service until it is
/// completed. `None` says that there is no such source, and nothing changes.
pub fn next(plic: &mut Plic) -> (claim: Option<u32>)
    ensures
        match claim {
            Some(id) => old(plic)@.is_next(id) && final(plic)@ == old(plic)@.claim(id),
            None => (forall|id: u32| !old(plic)@.claimable(id)) && final(plic)@ == old(plic)@,
        },
        claim == old(plic)@.next_claim(),
        claim != Some(0u32),
        claim matches Some(id) ==> old(plic)@.priority[id as int] > old(plic)@.threshold,
        old(plic)@.pending.is_empty() ==> claim is None,
        final(plic)@.wf(),
{
    proof {
        use_type_invariant(&*plic);
        plic.lemma_view_wf();
    }
    let ghost before = plic@;
    let mut best: u32 = 0;
    let mut id: u32 = 1;
    while id < SOURCES
        invariant
            1 <= id <= SOURCES,
            best < id,
            best == 0 ==> forall|other: u32| 1 <= other < id ==> !plic@.claimable(other),
            best != 0 ==> plic@.claimable(best),
            best != 0 ==> forall|other: u32|
                1 <= other < id && #[trigger] plic@.claimable(other) ==> plic@.ranks_before(
                    best,
                    other,
                ),
        decreases SOURCES - id,
    {
        let mask: u32 = 1 << id;
        proof {
            lemma_bit_tested(plic.pending, id);
            lemma_bit_tested(plic.enabled, id);
        }
        if plic.pending & mask != 0 && plic.enabled & mask != 0 && plic.priority[id as usize]
            > plic.threshold {
            if best == 0 || plic.priority[id as usize] > plic.priority[best as usize] {
                best = id;
            }
        }
        id += 1;
    }
    let claim = claimed(best);
    if let Some(source) = claim {
        let mask: u32 = 1 << source;
        let ghost pending = plic.pending;
        let ghost in_service = plic.in_service;
        proof {
            lemma_claim_bits(pending, in_service, source);
        }
        plic.pending = plic.pending & !mask;
        plic.in_service = plic.in_service | mask;
        proof {
            assert forall|other: u32| other < 32 implies #[trigger] bit(plic.pending, other) == (bit(
                pending,
                other,
            ) && other != source) by {
                lemma_bit_cleared(pending, source, other);
            }
            assert forall|other: u32| other < 32 implies #[trigger] bit(plic.in_service, other) == (bit(
                in_service,
                other,
            ) || other == source) by {
                lemma_bit_set(in_service, source, other);
            }
            assert(sources(plic.pending) =~= sources(pending).remove(source));
            assert(sources(plic.in_service) =~= sources(in_service).insert(source));
        }
    }
    proof {
        use_type_invariant(&*plic);
        plic.lemma_view_wf();
        match claim {
            Some(id) => {
                lemma_next_is_one(before, id, before.next_claim().unwrap());
            },
            None => {},
        }
    }
    claim
}

/// Complete the interrupt `id`: the source may become pending again. An id
/// that is not in service changes nothing.
pub fn complete(plic: &mut Plic, id: u32)
    ensures
        final(plic)@ == old(plic)@.complete(id),
        final(plic)@.wf(),
{
    proof {
        use_type_invariant(&*plic);
        plic.lemma_view_wf();
    }
    if id < SOURCES {
        let mask: u32 = 1 << id;
        let ghost in_service = plic.in_service;
        proof {
            lemma_complete_bits(plic.pending, in_service, id);
        }
        plic.in_service = plic.in_service & !mask;
        proof {
            assert forall|other: u32| other < 32 implies #[trigger] bit(plic.in_service, other) == (bit(
                in_service,
                other,
            ) && other != id) by {
                lemma_bit_cleared(in_service, id, other);
            }
            assert(sources(plic.in_service) =~= sources(in_service).remove(id));
        }
    } else {
        assert(plic@.in_service.remove(id) =~= plic@.in_service);
    }
    proof {
        use_type_invariant(&*plic);
        plic.lemma_view_wf();
    }
}

/// Set the threshold to the low three bits of `tsh`. The controller hands
/// out no source whose priority is at or below the threshold: 7 masks every
/// source, 0 lets every source with a priority through.
pub fn set_threshold(plic: &mut Plic, tsh: u8)
    ensures
        final(plic)@ == (PlicView { threshold: (tsh % 8) as u32, ..old(plic)@ }),
        final(plic)@.wf(),
{
    proof {
        use_type_invariant(&*plic);
    }
    plic.threshold = threshold_word(tsh);
    proof {
        use_type_invariant(&*plic);
        plic.lemma_view_wf();
    }
}

/// Whether the source `id` is pending.
pub fn is_pending(plic: &Plic, id: u32) -> (pending: bool)
    requires
        id < SOURCES,
    ensures
        pending == plic@.pending.contains(id),
{
    let actual_id: u32 = 1 << id;
    let pending_ids = plic.pending;
    proof {
        lemma_bit_tested(pending_ids, id);
        assert(actual_id & pending_ids == pending_ids & actual_id) by (bit_vector);
    }
    actual_id & pending_ids != 0
}

/// Enable the source `id`. There is no source 0: its bit stays clear.
pub fn enable(plic: &mut Plic, id: u32)
    requires
        id < SOURCES,
    ensures
        final(plic)@ == old(plic)@.enable(id),
        final(plic)@.wf(),
{
    proof {
        use_type_invariant(&*plic);
    }
    let actual_id: u32 = 1 << id;
    let ghost before = plic.enabled;
    proof {
        lemma_low_bit_clear(before | actual_id);
        lemma_low_bit_clear(before);
    }
    plic.enabled = (plic.enabled | actual_id) & !1;
    proof {
        assert forall|other: u32| other < 32 implies #[trigger] bit(plic.enabled, other) == ((bit(
            before,
            other,
        ) || other == id) && other != 0) by {
            lemma_bit_set(before, id, other);
            lemma_bit_zero_cleared(before | actual_id, other);
        }
        if id == 0 {
            assert(sources(plic.enabled) =~= sources(before));
        } else {
            assert(sources(plic.enabled) =~= sources(before).insert(id));
        }
        use_type_invariant(&*plic);
        plic.lemma_view_wf();
    }
}

/// Set the priority of the source `id` to the low three bits of `priority`.
/// There is no source 0: its priority stays 0.
pub fn set_priority(plic: &mut Plic, id: u32, priority: u8)
    requires
        id < SOURCES,
    ensures
        final(plic)@ == old(plic)@.set_priority(id, (priority % 8) as u32),
        final(plic)@.wf(),
{
    proof {
        use_type_invariant(&*plic);
    }
    let actual_priority = priority_word(priority);
    if id != 0 {
        plic.priority[id as usize] = actual_priority;
    }
    proof {
        use_type_invariant(&*plic);
        plic.lemma_view_wf();
    }
}

/// The next claim hands out one source and no other.
pub proof fn lemma_next_is_one(plic: PlicView, id: u32, other: u32)
    requires
        plic.is_next(id),
        plic.is_next(other),
    ensures
        id == other,
{
    assert(plic.ranks_before(id, other) && plic.ranks_before(other, id));
}

/// A source whose priority is at or below the threshold is not handed out,
/// and neither is source 0.
pub proof fn lemma_masked_is_not_next(plic: PlicView, id: u32)
    requires
        id == 0 || (id < SOURCES && plic.priority[id as int] <= plic.threshold),
    ensures
        !plic.is_next(id),
{
}

/// A source that was claimed is stuck until it is completed: it is not
/// handed out again, and a device that raises it changes nothing. Once it is
/// completed and raised again, it can be claimed again.
pub proof fn lemma_completion_rearms(plic: PlicView, id: u32)
    requires
        plic.wf(),
        plic.is_next(id),
    ensures
        !plic.claim(id).claimable(id),
        plic.claim(id).raise(id) == plic.claim(id),
        plic.claim(id).complete(id).raise(id).claimable(id),
        plic.claim(id).wf(),
        plic.claim(id).complete(id).raise(id).wf(),
{
}

/// Where an interrupt goes, by the id of its source.
#[derive(Clone, Copy, Debug, PartialEq, Eq, Structural)]
pub enum Route {
    /// Sources 1 to 8: the virtio devices.
    Virtio,
    /// Source 10: the console.
    Console,
    /// No driver knows the source.
    Unknown,
}

/// Where the interrupt of source `id` goes.
pub open spec fn route_of(id: u32) -> Route {
    if 1 <= id <= 8 {
        Route::Virtio
    } else if id == 10 {
        Route::Console
    } else {
        Route::Unknown
    }
}

/// Where the interrupt of source `id` goes.
pub fn route(id: u32) -> (to: Route)
    ensures
        to == route_of(id),
{
    match id {
        1..=8 => Route::Virtio,
        10 => Route::Console,
        _ => Route::Unknown,
    }
}

/// What the console shows for a byte that it received.
#[derive(Clone, Copy, Debug, PartialEq, Eq, Structural)]
pub enum Echo {
    /// Wipe the character before the cursor: step back, write a space, step
    /// back again.
    Erase,
    /// Start a new line.
    Newline,
    /// Show the character.
    Char(u8),
}

impl Echo {
    /// What the console shows for the byte `c`: a backspace erases one
    /// column, a line feed or a carriage return starts a new line, any other
    /// byte is shown as it is.
    pub open spec fn of(c: u8) -> Echo {
        if c == 8 {
            Echo::Erase
        } else if c == 10 || c == 13 {
            Echo::Newline
        } else {
            Echo::Char(c)
        }
    }

    /// The characters that go to the console.
    pub open spec fn text(self) -> Seq<char> {
        match self {
            Echo::Erase => seq![8u8 as char, ' ', 8u8 as char],
            Echo::Newline => seq!['\n'],
            Echo::Char(c) => seq![c as char],
        }
    }

    /// The characters that go to the console.
    pub fn chars(&self) -> (text: Vec<char>)
        ensures
            text@ == self.text(),
    {
        let mut text: Vec<char> = Vec::new();
        match self {
            Echo::Erase => {
                text.push(8u8 as char);
                text.push(' ');
                text.push(8u8 as char);
            },
            Echo::Newline => {
                text.push('\n');
            },
            Echo::Char(c) => {
                text.push(*c as char);
            },
        }
        assert(text@ =~= self.text());
        text
    }
}

/// What the console shows for the byte `c`.
pub fn echo(c: u8) -> (shown: Echo)
    ensures
        shown == Echo::of(c),
{
    match c {
        8 => Echo::Erase,
        10 | 13 => Echo::Newline,
        _ => Echo::Char(c),
    }
}

/// What the interrupt handler asks its caller to do.
///
/// `Complete` and `Return` end the handling: nothing may be handed to
/// `handle_interrupt` after them.
#[derive(Clone, Copy, Debug, PartialEq, Eq, Structural)]
pub enum Request {
    /// Claim the next interrupt; answer `Reply::Claimed`.
    Claim,
    /// Let the virtio driver serve the source; answer `Reply::Done`.
    Virtio(u32),
    /// Take the byte that the console received; answer `Reply::Byte`.
    Receive,
    /// Show this on the console; answer `Reply::Done`.
    Print(Echo),
    /// Say on the console that no driver knows the source; answer
    /// `Reply::Done`.
    ReportUnknown(u32),
    /// Complete the interrupt, and return.
    Complete(u32),
    /// Return: there was nothing to claim.
    Return,
}

/// What came of a request.
#[derive(Clone, Copy, Debug, PartialEq, Eq)]
pub enum Reply {
    /// The handler is called.
    Begin,
    /// What the claim handed out.
    Claimed(Option<u32>),
    /// The byte that the console received.
    Byte(u8),
    /// The request was performed; it has no result.
    Done,
}

/// Where the interrupt handler stands between two requests.
#[derive(Clone, Copy, Debug, PartialEq, Eq, Structural)]
pub enum Service {
    /// Nothing was asked yet.
    Called,
    /// The claim is under way.
    Claiming,
    /// The console is asked for its byte; `id` is the source in service.
    Receiving { id: u32 },
    /// A driver is at work; `id` is the source in service.
    Serving { id: u32 },
    /// The handling has ended.
    Finished,
}

/// The request that follows a reply, and the state it leaves the handler in.
/// A source that was claimed is completed whatever its id is and whatever
/// comes back in between.
pub open spec fn service_step(state: Service, reply: Reply) -> (Service, Request) {
    match state {
        Service::Called => (Service::Claiming, Request::Claim),
        Service::Claiming => match reply {
            Reply::Claimed(Some(id)) => match route_of(id) {
                Route::Virtio => (Service::Serving { id }, Request::Virtio(id)),
                Route::Console => (Service::Receiving { id }, Request::Receive),
                Route::Unknown => (Service::Serving { id }, Request::ReportUnknown(id)),
            },
            _ => (Service::Finished, Request::Return),
        },
        Service::Receiving { id } => match reply {
            Reply::Byte(c) => (Service::Serving { id }, Request::Print(Echo::of(c))),
            _ => (Service::Finished, Request::Complete(id)),
        },
        Service::Serving { id } => (Service::Finished, Request::Complete(id)),
        Service::Finished => (Service::Finished, Request::Return),
    }
}

/// Handle an external interrupt, one request at a time: claim, hand the
/// source to its driver, complete.
///
/// The first call takes `Service::Called` and `Reply::Begin`; each later one
/// takes the state that the call before it returned and what came of its
/// request.
pub fn handle_interrupt(state: Service, reply: Reply) -> (step: (Service, Request))
    ensures
        step == service_step(state, reply),
{
    match state {
        Service::Called => (Service::Claiming, Request::Claim),
        Service::Claiming => {
            if let Reply::Claimed(Some(interrupt)) = reply {
                match route(interrupt) {
                    Route::Virtio => (Service::Serving { id: interrupt }, Request::Virtio(interrupt)),
                    Route::Console => (Service::Receiving { id: interrupt }, Request::Receive),
                    Route::Unknown => (
                        Service::Serving { id: interrupt },
                        Request::ReportUnknown(interrupt),
                    ),
                }
            } else {
                (Service::Finished, Request::Return)
            }
        },
        Service::Receiving { id } => {
            if let Reply::Byte(c) = reply {
                (Service::Serving { id }, Request::Print(echo(c)))
            } else {
                (Service::Finished, Request::Complete(id))
            }
        },
        Service::Serving { id } => (Service::Finished, Request::Complete(id)),
        Service::Finished => (Service::Finished, Request::Return),
    }
}

/// What the world outside the handler answers during one interrupt.
pub struct Answers {
    /// What the claim hands out.
    pub claim: Option<u32>,
    /// The byte that the console holds.
    pub byte: u8,
}

/// The reply that answers a request.
pub open spec fn reply_to(request: Request, answers: Answers) -> Reply {
    match request {
        Request::Claim => Reply::Claimed(answers.claim),
        Request::Receive => Reply::Byte(answers.byte),
        _ => Reply::Done,
    }
}

/// An upper bound on the number of requests that are still to come.
pub open spec fn requests_left(state: Service) -> nat {
    match state {
        Service::Finished => 0,
        Service::Serving { .. } => 1,
        Service::Receiving { .. } => 2,
        Service::Claiming => 3,
        Service::Called => 4,
    }
}

/// The requests of one interrupt from `request` on, where each is answered
/// as `answers` says.
pub open spec fn requests_from(state: Service, request: Request, answers: Answers) -> Seq<Request>
    decreases requests_left(state),
{
    if state is Finished {
        seq![request]
    } else {
        let step = service_step(state, reply_to(request, answers));
        seq![request] + requests_from(step.0, step.1, answers)
    }
}

/// All requests of one interrupt, in the order in which the handler makes
/// them.
pub open spec fn requests(answers: Answers) -> Seq<Request> {
    let step = service_step(Service::Called, Reply::Begin);
    requests_from(step.0, step.1, answers)
}

/// The handler claims once. Where nothing was claimed it returns. Where a
/// source was claimed, it goes to the virtio driver (sources 1 to 8), or the
/// console's byte is taken and echoed (source 10), or the source is reported
/// as unknown (any other); and then the source is completed, once, as the
/// last request, whichever of the three it was.
pub proof fn lemma_claim_is_completed(answers: Answers)
    ensures
        requests(answers) == (match answers.claim {
            None => seq![Request::Claim, Request::Return],
            Some(id) => if 1 <= id <= 8 {
                seq![Request::Claim, Request::Virtio(id), Request::Complete(id)]
            } else if id == 10 {
                seq![
                    Request::Claim,
                    Request::Receive,
                    Request::Print(Echo::of(answers.byte)),
                    Request::Complete(id),
                ]
            } else {
                seq![Request::Claim, Request::ReportUnknown(id), Request::Complete(id)]
            },
        }),
{
    reveal_with_fuel(requests_from, 5);
    assert(requests(answers) =~= (match answers.claim {
        None => seq![Request::Claim, Request::Return],
        Some(id) => if 1 <= id <= 8 {
            seq![Request::Claim, Request::Virtio(id), Request::Complete(id)]
        } else if id == 10 {
            seq![
                Request::Claim,
                Request::Receive,
                Request::Print(Echo::of(answers.byte)),
                Request::Complete(id),
            ]
        } else {
            seq![Request::Claim, Request::ReportUnknown(id), Request::Complete(id)]
        },
    }));
}

impl PlicView {
    /// What the next claim hands out: the source that ranks first among those
    /// that can be claimed, or nothing where there is none.
    pub open spec fn next_claim(self) -> Option<u32> {
        if exists|id: u32| self.is_next(id) {
            Some(choose|id: u32| self.is_next(id))
        } else {
            None
        }
    }

    /// The state after a request of the interrupt handler was performed.
    /// Claiming and completing change the controller; the drivers' work does
    /// not.
    pub open spec fn after(self, request: Request) -> PlicView {
        match request {
            Request::Claim => match self.next_claim() {
                Some(id) => self.claim(id),
                None => self,
            },
            Request::Complete(id) => self.complete(id),
            _ => self,
        }
    }

    /// The state after some requests were performed, one after the other.
    pub open spec fn after_all(self, requests: Seq<Request>) -> PlicView
        decreases requests.len(),
    {
        if requests.len() == 0 {
            self
        } else {
            self.after(requests.first()).after_all(requests.drop_first())
        }
    }
}

/// The handler leaves no source stuck. Where it runs against the controller,
/// the source that it claimed is no longer pending when it returns, the
/// sources in service are those that were in service before, and nothing
/// else has changed: the source can interrupt again as soon as it is raised
/// again.
pub proof fn lemma_handler_leaves_no_source_stuck(plic: PlicView, byte: u8)
    requires
        plic.wf(),
    ensures
        ({
            let answers = Answers { claim: plic.next_claim(), byte };
            let end = plic.after_all(requests(answers));
            &&& end.wf()
            &&& end.in_service == plic.in_service
            &&& end.enabled == plic.enabled
            &&& end.priority == plic.priority
            &&& end.threshold == plic.threshold
            &&& match plic.next_claim() {
                Some(id) => plic.is_next(id) && end.pending == plic.pending.remove(id)
                    && end.raise(id).claimable(id),
                None => end.pending == plic.pending && forall|id: u32| !plic.claimable(id),
            }
        }),
{
    let answers = Answers { claim: plic.next_claim(), byte };
    let all = requests(answers);
    lemma_claim_is_completed(answers);
    reveal_with_fuel(PlicView::after_all, 6);
    match plic.next_claim() {
        Some(id) => {
            let claimed = plic.claim(id);
            let end = claimed.complete(id);
            assert(!plic.in_service.contains(id));
            assert(end.in_service =~= plic.in_service);
            if 1 <= id <= 8 {
                assert(all.drop_first() =~= seq![Request::Virtio(id), Request::Complete(id)]);
                assert(all.drop_first().drop_first() =~= seq![Request::Complete(id)]);
                assert(all.drop_first().drop_first().drop_first() =~= Seq::<Request>::empty());
            } else if id == 10 {
                let shown = Request::Print(Echo::of(byte));
                assert(all.drop_first() =~= seq![Request::Receive, shown, Request::Complete(id)]);
                assert(all.drop_first().drop_first() =~= seq![shown, Request::Complete(id)]);
                assert(all.drop_first().drop_first().drop_first() =~= seq![Request::Complete(id)]);
                assert(all.drop_first().drop_first().drop_first().drop_first() =~= Seq::<
                    Request,
                >::empty());
            } else {
                assert(all.drop_first() =~= seq![Request::ReportUnknown(id), Request::Complete(id)]);
                assert(all.drop_first().drop_first() =~= seq![Request::Complete(id)]);
                assert(all.drop_first().drop_first().drop_first() =~= Seq::<Request>::empty());
            }
            assert(plic.after_all(all) == end);
        },
        None => {
            assert(all.drop_first() =~= seq![Request::Return]);
            assert(all.drop_first().drop_first() =~= Seq::<Request>::empty());
            assert(plic.after_all(all) == plic);
            assert forall|id: u32| !plic.claimable(id) by {
                if plic.claimable(id) {
                    lemma_some_source_is_next(plic, id);
                }
            }
        },
    }
}

/// Where a source can be claimed, one source ranks first.
pub proof fn lemma_some_source_is_next(plic: PlicView, id: u32)
    requires
        plic.claimable(id),
    ensures
        exists|first: u32| plic.is_next(first),
{
    lemma_first_up_to(plic, id, SOURCES);
    let first = choose|first: u32| #[trigger] first_up_to(plic, first, SOURCES);
    assert(plic.is_next(first));
}

/// Whether `first` can be claimed and ranks before every source below
/// `bound` that can be claimed.
spec fn first_up_to(plic: PlicView, first: u32, bound: u32) -> bool {
    &&& plic.claimable(first)
    &&& forall|other: u32|
        other < bound && #[trigger] plic.claimable(other) ==> plic.ranks_before(first, other)
}

proof fn lemma_first_up_to(plic: PlicView, id: u32, bound: u32)
    requires
        plic.claimable(id),
        bound <= SOURCES,
    ensures
        exists|first: u32| #[trigger] first_up_to(plic, first, bound),
    decreases bound,
{
    if bound == 0 {
        assert(first_up_to(plic, id, 0));
    } else {
        let last = (bound - 1) as u32;
        lemma_first_up_to(plic, id, last);
        let before = choose|first: u32| #[trigger] first_up_to(plic, first, last);
        if plic.claimable(last) && !plic.ranks_before(before, last) {
            assert forall|other: u32|
                other < bound && #[trigger] plic.claimable(other) implies plic.ranks_before(
                last,
                other,
            ) by {
                if other < last {
                    assert(plic.ranks_before(before, other));
                }
            }
            assert(first_up_to(plic, last, bound));
        } else {
            assert(first_up_to(plic, before, bound));
        }
    }
}

} // verus!
