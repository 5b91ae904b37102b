//! The parameter store: named presets, the index of the active one, and the
//! limits that hold for the whole run.

use crate::uniform::Uniform;
use vstd::prelude::*;
use vstd::string::*;

verus! {

/// A single-precision number, kept as its IEEE 754 bit pattern. The store
/// never computes with it; it is carried from the configuration to the
/// kernels unchanged. Two scalars are equal when their bits are.
#[derive(Clone, Copy, Debug, PartialEq, Eq, Structural)]
pub struct Scalar {
    /// The 32 bits of the number.
    pub bits: u32,
}

impl Scalar {
    /// The scalar with the given bit pattern.
    pub fn from_bits(bits: u32) -> (s: Scalar)
        ensures
            s.bits == bits,
    {
        Scalar { bits }
    }

    /// The bit pattern of the scalar.
    pub fn to_bits(self) -> (bits: u32)
        ensures
            bits == self.bits,
    {
        self.bits
    }
}

/// Parameters of the particle-update kernel.
#[derive(Clone, Copy, Debug, PartialEq, Eq)]
pub struct ParticleParams {
    pub trail_power: Scalar,
    pub speed: Scalar,
    pub sensor_angle: Scalar,
    pub sensor_distance: Scalar,
    pub turn_speed: Scalar,
    /// Number of particles that are simulated.
    pub num_particles: u32,
}

/// Parameters of the trail-decay kernel.
#[derive(Clone, Copy, Debug, PartialEq, Eq)]
pub struct DecayParams {
    pub decay_rate: Scalar,
}

/// Parameters of the trail-diffuse kernel.
#[derive(Clone, Copy, Debug, PartialEq, Eq)]
pub struct DiffuseParams {
    pub diffuse_amount: Scalar,
}

/// Parameters of the render stage.
#[derive(Clone, Copy, Debug, PartialEq, Eq)]
pub struct RenderParams {
    pub color_1: [Scalar; 3],
    pub color_2: [Scalar; 3],
    pub color_pow: Scalar,
    pub cutoff: Scalar,
}

/// A preset: one named bundle of the parameters of all four stages.
#[derive(Clone, Debug, PartialEq, Eq)]
pub struct Params {
    pub name: String,
    pub particle: ParticleParams,
    pub decay: DecayParams,
    pub diffuse: DiffuseParams,
    pub render: RenderParams,
}

/// Settings that hold for the whole run.
#[derive(Clone, Copy, Debug, PartialEq, Eq)]
pub struct GlobalParams {
    /// Whether the decay and diffuse stages run.
    pub post_enabled: bool,
    /// Capacity of the particle buffers, fixed when they are allocated.
    pub max_particles: u32,
}

/// The presets, the index of the active one, and the global settings.
#[derive(Clone, Debug, PartialEq, Eq)]
pub struct ParamManager {
    /// Index of the active preset in `params`.
    pub current: usize,
    pub params: Vec<Params>,
    pub global: GlobalParams,
}

/// A configuration as it is stored: the same three parts as the store, with
/// nothing yet known of the active index.
#[derive(Clone, Debug, PartialEq, Eq)]
pub struct ConfigDocument {
    pub current: usize,
    pub params: Vec<Params>,
    pub global: GlobalParams,
}

/// An index that names no preset.
#[derive(Clone, Copy, Debug, PartialEq, Eq)]
pub struct IndexFault {
    /// The index that was asked for.
    pub index: usize,
    /// The number of presets there are.
    pub len: usize,
}

/// A preset as a mathematical value.
pub struct ParamsView {
    pub name: Seq<char>,
    pub particle: ParticleParams,
    pub decay: DecayParams,
    pub diffuse: DiffuseParams,
    pub render: RenderParams,
}

/// A parameter store as a mathematical value.
pub struct ParamManagerView {
    pub current: nat,
    pub params: Seq<ParamsView>,
    pub global: GlobalParams,
}

impl View for Params {
    type V = ParamsView;

    open spec fn view(&self) -> ParamsView {
        ParamsView {
            name: self.name@,
            particle: self.particle,
            decay: self.decay,
            diffuse: self.diffuse,
            render: self.render,
        }
    }
}

impl View for ParamManager {
    type V = ParamManagerView;

    open spec fn view(&self) -> ParamManagerView {
        ParamManagerView {
            current: self.current as nat,
            params: self.params@.map_values(|p: Params| p@),
            global: self.global,
        }
    }
}

impl View for ConfigDocument {
    type V = ParamManagerView;

    open spec fn view(&self) -> ParamManagerView {
        ParamManagerView {
            current: self.current as nat,
            params: self.params@.map_values(|p: Params| p@),
            global: self.global,
        }
    }
}

impl ParamsView {
    /// The preset with another particle count.
    pub open spec fn with_num_particles(self, count: u32) -> ParamsView {
        ParamsView {
            particle: ParticleParams { num_particles: count, ..self.particle },
            ..self
        }
    }
}

/// The particle count that is set where `requested` is asked for: at most
/// the capacity.
pub open spec fn spec_clamp(requested: u32, max_particles: u32) -> u32 {
    if requested > max_particles {
        max_particles
    } else {
        requested
    }
}

impl ParamManagerView {
    /// The active index names a preset.
    pub open spec fn wf(self) -> bool {
        self.current < self.params.len()
    }

    /// The active preset.
    pub open spec fn active(self) -> ParamsView
        recommends
            self.wf(),
    {
        self.params[self.current as int]
    }

    /// The store with the active preset replaced.
    pub open spec fn with_active(self, preset: ParamsView) -> ParamManagerView
        recommends
            self.wf(),
    {
        ParamManagerView { params: self.params.update(self.current as int, preset), ..self }
    }

    /// The store with another preset made the active one.
    pub open spec fn with_current(self, index: nat) -> ParamManagerView {
        ParamManagerView { current: index, ..self }
    }

    /// The store after a copy of the active preset was appended under a
    /// generated name and made the active one.
    pub open spec fn with_new_preset(self) -> ParamManagerView
        recommends
            self.wf(),
    {
        ParamManagerView {
            current: self.params.len(),
            params: self.params.push(
                ParamsView { name: custom_name(self.params.len()), ..self.active() },
            ),
            global: self.global,
        }
    }

    /// The store that loading yields from a stored configuration: none where
    /// the active index names no preset.
    pub open spec fn loaded(self) -> Option<ParamManagerView> {
        if self.wf() {
            Some(self)
        } else {
            None
        }
    }

    /// No preset asks for more particles than the buffers hold.
    pub open spec fn within_capacity(self) -> bool {
        forall|i: int|
            0 <= i < self.params.len() ==> (#[trigger] self.params[i]).particle.num_particles
                <= self.global.max_particles
    }
}

/// Replacing one preset replaces its view and no other.
pub proof fn lemma_view_of_update(presets: Seq<Params>, index: int, preset: Params)
    requires
        0 <= index < presets.len(),
    ensures
        presets.update(index, preset).map_values(|p: Params| p@) == presets.map_values(
            |p: Params| p@,
        ).update(index, preset@),
{
    assert(presets.update(index, preset).map_values(|p: Params| p@) =~= presets.map_values(
        |p: Params| p@,
    ).update(index, preset@));
}

/// The character of a decimal digit.
pub open spec fn digit_char(digit: nat) -> char
    recommends
        digit < 10,
{
    seq!['0', '1', '2', '3', '4', '5', '6', '7', '8', '9'][digit as int]
}

/// A number in decimal, without sign or leading zeros.
pub open spec fn decimal_digits(n: nat) -> Seq<char>
    decreases n,
{
    if n < 10 {
        seq![digit_char(n)]
    } else {
        decimal_digits(n / 10).push(digit_char(n % 10))
    }
}

/// The name given to the preset created at `index`.
pub open spec fn custom_name(index: nat) -> Seq<char> {
    "Custom "@ + decimal_digits(index)
}

/// The one-character text of a decimal digit.
pub fn digit_str(digit: usize) -> (text: &'static str)
    requires
        digit < 10,
    ensures
        text@ == seq![digit_char(digit as nat)],
{
    proof {
        reveal_strlit("0");
        reveal_strlit("1");
        reveal_strlit("2");
        reveal_strlit("3");
        reveal_strlit("4");
        reveal_strlit("5");
        reveal_strlit("6");
        reveal_strlit("7");
        reveal_strlit("8");
        reveal_strlit("9");
    }
    let text = if digit == 0 {
        "0"
    } else if digit == 1 {
        "1"
    } else if digit == 2 {
        "2"
    } else if digit == 3 {
        "3"
    } else if digit == 4 {
        "4"
    } else if digit == 5 {
        "5"
    } else if digit == 6 {
        "6"
    } else if digit == 7 {
        "7"
    } else if digit == 8 {
        "8"
    } else {
        "9"
    };
    assert(text@ =~= seq![digit_char(digit as nat)]);
    text
}

/// A number written out in decimal, without sign or leading zeros.
pub fn decimal_string(n: usize) -> (text: String)
    ensures
        text@ == decimal_digits(n as nat),
    decreases n,
{
    if n < 10 {
        String::from_str(digit_str(n))
    } else {
        let text = decimal_string(n / 10).concat(digit_str(n % 10));
        assert(text@ =~= decimal_digits(n as nat));
        text
    }
}

/// The name for a preset created at `index`: `Custom` and the index.
pub fn preset_name(index: usize) -> (name: String)
    ensures
        name@ == custom_name(index as nat),
{
    let digits = decimal_string(index);
    String::from_str("Custom ").concat(digits.as_str())
}

impl GlobalParams {
    /// The largest particle count that is offered for editing: one below
    /// the capacity of the buffers.
    pub fn largest_particle_count(&self) -> (largest: u32)
        requires
            self.max_particles > 0,
        ensures
            largest == self.max_particles - 1,
    {
        self.max_particles - 1
    }

    /// Switches post-processing on where it is off, and off where it is on.
    pub fn toggle_post(&mut self)
        ensures
            final(self).post_enabled == !old(self).post_enabled,
            final(self).max_particles == old(self).max_particles,
    {
        self.post_enabled = !self.post_enabled;
    }
}

impl Params {
    /// A copy of the preset that shares nothing with it.
    pub fn duplicate(&self) -> (copy: Params)
        ensures
            copy == *self,
    {
        Params {
            name: self.name.clone(),
            particle: self.particle,
            decay: self.decay,
            diffuse: self.diffuse,
            render: self.render,
        }
    }
}

impl ParamManager {
    /// The active index names a preset.
    pub open spec fn wf(&self) -> bool {
        self.current < self.params@.len()
    }

    /// Whether the active index names a preset.
    pub fn is_valid(&self) -> (ok: bool)
        ensures
            ok == self.wf(),
            ok == self@.wf(),
    {
        self.current < self.params.len()
    }

    /// Builds the store from the document that was decoded from the JSON
    /// configuration, and rejects one whose active index names no preset.
    pub fn from_json(document: ConfigDocument) -> (r: Result<ParamManager, IndexFault>)
        ensures
            document.current < document.params@.len() ==> r == Ok::<ParamManager, IndexFault>(
                ParamManager {
                    current: document.current,
                    params: document.params,
                    global: document.global,
                },
            ),
            document.current >= document.params@.len() ==> r == Err::<ParamManager, IndexFault>(
                IndexFault { index: document.current, len: document.params@.len() as usize },
            ),
            r matches Ok(m) ==> m.wf(),
            (match r {
                Ok(m) => Some(m@),
                Err(_) => None,
            }) == document@.loaded(),
    {
        if document.current < document.params.len() {
            Ok(
                ParamManager {
                    current: document.current,
                    params: document.params,
                    global: document.global,
                },
            )
        } else {
            Err(IndexFault { index: document.current, len: document.params.len() })
        }
    }

    /// The document to encode and write out: the state of the store as it
    /// is, which stays untouched.
    pub fn save(&self) -> (document: ConfigDocument)
        ensures
            document.current == self.current,
            document.params@ == self.params@,
            document.global == self.global,
            document@ == self@,
    {
        let mut params: Vec<Params> = Vec::new();
        let mut i: usize = 0;
        while i < self.params.len()
            invariant
                i <= self.params@.len(),
                params@ == self.params@.take(i as int),
            decreases self.params@.len() - i,
        {
            params.push(self.params[i].duplicate());
            assert(params@ =~= self.params@.take(i + 1));
            i = i + 1;
        }
        assert(params@ =~= self.params@);
        ConfigDocument { current: self.current, params, global: self.global }
    }

    /// The active preset.
    pub fn current(&self) -> (preset: &Params)
        requires
            self.wf(),
        ensures
            *preset == self.params@[self.current as int],
            preset@ == self@.active(),
    {
        &self.params[self.current]
    }

    /// The active preset, to be edited in place. Whatever the caller writes
    /// takes the place of the active preset; nothing else changes.
    pub fn current_mut(&mut self) -> (preset: &mut Params)
        requires
            old(self).wf(),
        ensures
            *preset == old(self).params@[old(self).current as int],
            final(self).current == old(self).current,
            final(self).global == old(self).global,
            final(self).params@ == old(self).params@.update(
                old(self).current as int,
                *final(preset),
            ),
            final(self)@ == old(self)@.with_active(final(preset)@),
            final(self).wf(),
    {
        let index = self.current;
        let preset = &mut self.params[index];
        proof {
            lemma_view_of_update(old(self).params@, index as int, *final(preset));
        }
        preset
    }

    /// Makes the preset at `index` the active one, if there is one.
    pub fn select(&mut self, index: usize) -> (r: Result<(), IndexFault>)
        ensures
            final(self).params == old(self).params,
            final(self).global == old(self).global,
            index < old(self).params@.len() ==> {
                &&& r == Ok::<(), IndexFault>(())
                &&& final(self).current == index
                &&& final(self).wf()
                &&& final(self)@ == old(self)@.with_current(index as nat)
            },
            index >= old(self).params@.len() ==> {
                &&& r == Err::<(), IndexFault>(
                    IndexFault { index, len: old(self).params@.len() as usize },
                )
                &&& final(self).current == old(self).current
            },
    {
        if index < self.params.len() {
            self.current = index;
            Ok(())
        } else {
            Err(IndexFault { index, len: self.params.len() })
        }
    }

    /// Appends a copy of the active preset under a generated name and makes
    /// it the active one. The presets that were there stay as they are.
    pub fn new(&mut self)
        requires
            old(self).wf(),
        ensures
            final(self)@ == old(self)@.with_new_preset(),
            final(self).wf(),
            final(self).current == old(self).params@.len(),
            final(self).global == old(self).global,
            final(self).params@.len() == old(self).params@.len() + 1,
            final(self).params@.drop_last() == old(self).params@,
            final(self).params@.last()@ == (ParamsView {
                name: custom_name(old(self).params@.len()),
                ..old(self).params@[old(self).current as int]@
            }),
    {
        let index = self.params.len();
        let source = &self.params[self.current];
        let preset = Params {
            name: preset_name(index),
            particle: source.particle,
            decay: source.decay,
            diffuse: source.diffuse,
            render: source.render,
        };
        self.params.push(preset);
        self.current = index;
        assert(self.params@.drop_last() =~= old(self).params@);
        assert(self@.params =~= old(self)@.with_new_preset().params);
    }

    /// Sets the particle count of the active preset to what is asked for, or
    /// to the capacity of the buffers where more is asked for. Nothing else
    /// changes.
    pub fn set_num_particles(&mut self, requested: u32)
        requires
            old(self).wf(),
        ensures
            final(self)@ == old(self)@.with_active(
                old(self)@.active().with_num_particles(
                    spec_clamp(requested, old(self).global.max_particles),
                ),
            ),
            final(self).wf(),
    {
        let count = if requested > self.global.max_particles {
            self.global.max_particles
        } else {
            requested
        };
        let preset = self.current_mut();
        preset.particle.num_particles = count;
    }

    /// Whether no preset asks for more particles than the buffers hold.
    pub fn fits_capacity(&self) -> (ok: bool)
        ensures
            ok == self@.within_capacity(),
    {
        let mut i: usize = 0;
        while i < self.params.len()
            invariant
                i <= self.params@.len(),
                forall|j: int|
                    0 <= j < i ==> (#[trigger] self@.params[j]).particle.num_particles
                        <= self.global.max_particles,
            decreases self.params@.len() - i,
        {
            if self.params[i].particle.num_particles > self.global.max_particles {
                assert(self@.params[i as int].particle.num_particles > self.global.max_particles);
                return false;
            }
            i = i + 1;
        }
        true
    }
}

impl Uniform for ParticleParams {
    open spec fn spec_words(&self) -> Seq<u32> {
        seq![
            self.trail_power.bits,
            self.speed.bits,
            self.sensor_angle.bits,
            self.sensor_distance.bits,
            self.turn_speed.bits,
            self.num_particles,
        ]
    }

    fn words(&self) -> (w: Vec<u32>) {
        vec![
            self.trail_power.bits,
            self.speed.bits,
            self.sensor_angle.bits,
            self.sensor_distance.bits,
            self.turn_speed.bits,
            self.num_particles,
        ]
    }
}

impl Uniform for DecayParams {
    open spec fn spec_words(&self) -> Seq<u32> {
        seq![self.decay_rate.bits]
    }

    fn words(&self) -> (w: Vec<u32>) {
        vec![self.decay_rate.bits]
    }
}

impl Uniform for DiffuseParams {
    open spec fn spec_words(&self) -> Seq<u32> {
        seq![self.diffuse_amount.bits]
    }

    fn words(&self) -> (w: Vec<u32>) {
        vec![self.diffuse_amount.bits]
    }
}

impl Uniform for RenderParams {
    open spec fn spec_words(&self) -> Seq<u32> {
        seq![
            self.color_1[0].bits,
            self.color_1[1].bits,
            self.color_1[2].bits,
            self.color_2[0].bits,
            self.color_2[1].bits,
            self.color_2[2].bits,
            self.color_pow.bits,
            self.cutoff.bits,
        ]
    }

    fn words(&self) -> (w: Vec<u32>) {
        vec![
            self.color_1[0].bits,
            self.color_1[1].bits,
            self.color_1[2].bits,
            self.color_2[0].bits,
            self.color_2[1].bits,
            self.color_2[2].bits,
            self.color_pow.bits,
            self.cutoff.bits,
        ]
    }
}

/// Loading rejects exactly the configurations whose active index names no
/// preset, and what it accepts is the configuration itself, with an active
/// preset to hand out.
pub proof fn lemma_load_rejects_dangling_index(document: ParamManagerView)
    ensures
        document.loaded() is Some <==> document.current < document.params.len(),
        document.loaded() matches Some(store) ==> store.wf() && store == document
            && store.active() == document.params[document.current as int],
{
}

/// What a valid store saves, loading accepts and turns back into that
/// store: every preset, the global settings and the active index come back
/// equal in all fields.
pub proof fn lemma_save_then_load_round_trips(store: ParamManagerView)
    requires
        store.wf(),
    ensures
        store.loaded() == Some(store),
{
}

/// Switching to any index below the number of presets leaves a store whose
/// active preset is defined, and is the preset at that index. The presets
/// and the global settings stay as they are.
pub proof fn lemma_select_defines_active(store: ParamManagerView, index: nat)
    requires
        index < store.params.len(),
    ensures
        store.with_current(index).wf(),
        store.with_current(index).active() == store.params[index as int],
        store.with_current(index).params == store.params,
        store.with_current(index).global == store.global,
{
}

/// Creating a preset in a store of `n` presets leaves `n + 1` of them, the
/// new one active at index `n`, named after its index and otherwise equal to
/// the preset that was active. The presets that were there are unchanged.
pub proof fn lemma_new_preset_copies_active(store: ParamManagerView)
    requires
        store.wf(),
    ensures
        store.with_new_preset().wf(),
        store.with_new_preset().params.len() == store.params.len() + 1,
        store.with_new_preset().current == store.params.len(),
        store.with_new_preset().global == store.global,
        store.with_new_preset().params.drop_last() == store.params,
        store.with_new_preset().active().name == custom_name(store.params.len()),
        store.with_new_preset().active().particle == store.active().particle,
        store.with_new_preset().active().decay == store.active().decay,
        store.with_new_preset().active().diffuse == store.active().diffuse,
        store.with_new_preset().active().render == store.active().render,
{
    assert(store.with_new_preset().params.drop_last() =~= store.params);
}

/// The preset that `new` creates shares nothing with its source: whatever
/// is written to it afterwards, every preset that was there before, the
/// source among them, stays as it was.
pub proof fn lemma_new_preset_is_independent(store: ParamManagerView, edit: ParamsView)
    requires
        store.wf(),
    ensures
        store.with_new_preset().with_active(edit).active() == edit,
        store.with_new_preset().with_active(edit).params.drop_last() == store.params,
        store.with_new_preset().with_active(edit).params[store.current as int]
            == store.active(),
{
    assert(store.with_new_preset().with_active(edit).params.drop_last() =~= store.params);
}

/// A new preset asks for as many particles as its source, so creating one
/// keeps every preset within the capacity of the buffers.
pub proof fn lemma_new_preset_keeps_capacity(store: ParamManagerView)
    requires
        store.wf(),
        store.within_capacity(),
    ensures
        store.with_new_preset().within_capacity(),
{
    let after = store.with_new_preset();
    assert forall|i: int| 0 <= i < after.params.len() implies (#[trigger] after.params[
        i
    ]).particle.num_particles <= after.global.max_particles by {
        if i < store.params.len() {
            assert(after.params[i] == store.params[i]);
        } else {
            assert(after.params[i].particle == store.params[store.current as int].particle);
        }
    }
}

/// Setting the particle count through the store keeps every preset within
/// the capacity of the buffers, whatever count is asked for.
pub proof fn lemma_set_num_particles_keeps_capacity(store: ParamManagerView, requested: u32)
    requires
        store.wf(),
        store.within_capacity(),
    ensures
        store.with_active(
            store.active().with_num_particles(spec_clamp(requested, store.global.max_particles)),
        ).within_capacity(),
{
    let after = store.with_active(
        store.active().with_num_particles(spec_clamp(requested, store.global.max_particles)),
    );
    assert forall|i: int| 0 <= i < after.params.len() implies (#[trigger] after.params[
        i
    ]).particle.num_particles <= after.global.max_particles by {
        if i != store.current {
            assert(after.params[i] == store.params[i]);
        }
    }
}

} // verus!
