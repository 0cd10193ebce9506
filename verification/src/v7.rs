//! Format version 7.

pub mod kind;

use crate::compound::{
    lemma_optional_local, lemma_optional_truncated, optional_spec, pair_spec, parse_if, view_of,
};
use crate::error::DecodeError;
use crate::geometry::{check_wires, check_wires_spec, Wired};
use crate::parser::{lemma_split_prefix, Parse};
use crate::slice::Slice;
pub use crate::sync::SyncState;
pub use crate::v7::kind::ComponentKind;
pub use crate::wire::{Point, WireDirection, WirePath, WireSegment, WireSegments};
use vstd::prelude::*;

verus! {

/// A component whose state is watched while a program runs.
#[derive(Clone, Copy, Debug)]
pub struct WatchedComponent<'a> {
    pub permanent_id: i64,
    pub inner_id: i64,
    pub name: &'a str,
}

/// What a `WatchedComponent` stands for.
pub struct WatchedComponentModel {
    pub permanent_id: i64,
    pub inner_id: i64,
    pub name: Seq<char>,
}

/// The fields of a `WatchedComponent` in the order they have on the wire.
pub type WatchedComponentLayout<'a> = (i64, (i64, &'a str));

/// What the fields of a `WatchedComponent` stand for, in the order of the layout.
pub type WatchedComponentFields = (i64, (i64, Seq<char>));

impl WatchedComponentModel {
    /// The fields in the order of the layout.
    pub open spec fn fields(self) -> WatchedComponentFields {
        (self.permanent_id, (self.inner_id, self.name))
    }

    /// The record with the given fields.
    pub open spec fn of(f: WatchedComponentFields) -> Self {
        WatchedComponentModel {
            permanent_id: f.0,
            inner_id: f.1.0,
            name: f.1.1,
        }
    }
}

impl<'a> View for WatchedComponent<'a> {
    type V = WatchedComponentModel;

    open spec fn view(&self) -> WatchedComponentModel {
        WatchedComponentModel {
            permanent_id: self.permanent_id,
            inner_id: self.inner_id,
            name: self.name@,
        }
    }
}

impl<'a> Parse<'a> for WatchedComponent<'a> {
    open spec fn parse_spec(input: Seq<u8>) -> Result<(WatchedComponentModel, nat), DecodeError> {
        match <WatchedComponentLayout<'a>>::parse_spec(input) {
            Ok((fields, n)) => Ok((WatchedComponentModel::of(fields), n)),
            Err(e) => Err(e),
        }
    }

    proof fn lemma_parse_local(a: Seq<u8>, b: Seq<u8>) {
        <WatchedComponentLayout<'a>>::lemma_parse_local(a, b);
    }

    proof fn lemma_parse_truncated(a: Seq<u8>, k: nat) {
        <WatchedComponentLayout<'a>>::lemma_parse_truncated(a, k);
    }

    fn parse(input: &mut &'a [u8]) -> (r: Result<Self, DecodeError>) {
        let (permanent_id, (inner_id, name)) = <WatchedComponentLayout<'a>>::parse(input)?;
        Ok(WatchedComponent { permanent_id, inner_id, name })
    }
}

/// The programs of a component that runs programs, and what is watched while they run.
#[derive(Clone, Debug)]
pub struct AssemblerInfo<'a> {
    pub programs: Slice<'a, u16, (&'a str, &'a str)>,
    pub watched_components: Slice<'a, u16, WatchedComponent<'a>>,
}

/// What a `AssemblerInfo` stands for.
pub struct AssemblerInfoModel {
    pub programs: Seq<(Seq<char>, Seq<char>)>,
    pub watched_components: Seq<WatchedComponentModel>,
}

/// The fields of a `AssemblerInfo` in the order they have on the wire.
pub type AssemblerInfoLayout<'a> = (
    Slice<'a, u16, (&'a str, &'a str)>,
    Slice<'a, u16, WatchedComponent<'a>>,
);

/// What the fields of a `AssemblerInfo` stand for, in the order of the layout.
pub type AssemblerInfoFields = (Seq<(Seq<char>, Seq<char>)>, Seq<WatchedComponentModel>);

impl AssemblerInfoModel {
    /// The fields in the order of the layout.
    pub open spec fn fields(self) -> AssemblerInfoFields {
        (self.programs, self.watched_components)
    }

    /// The record with the given fields.
    pub open spec fn of(f: AssemblerInfoFields) -> Self {
        AssemblerInfoModel {
            programs: f.0,
            watched_components: f.1,
        }
    }
}

impl<'a> View for AssemblerInfo<'a> {
    type V = AssemblerInfoModel;

    open spec fn view(&self) -> AssemblerInfoModel {
        AssemblerInfoModel {
            programs: self.programs@,
            watched_components: self.watched_components@,
        }
    }
}

impl<'a> Parse<'a> for AssemblerInfo<'a> {
    open spec fn parse_spec(input: Seq<u8>) -> Result<(AssemblerInfoModel, nat), DecodeError> {
        match <AssemblerInfoLayout<'a>>::parse_spec(input) {
            Ok((fields, n)) => Ok((AssemblerInfoModel::of(fields), n)),
            Err(e) => Err(e),
        }
    }

    proof fn lemma_parse_local(a: Seq<u8>, b: Seq<u8>) {
        <AssemblerInfoLayout<'a>>::lemma_parse_local(a, b);
    }

    proof fn lemma_parse_truncated(a: Seq<u8>, k: nat) {
        <AssemblerInfoLayout<'a>>::lemma_parse_truncated(a, k);
    }

    fn parse(input: &mut &'a [u8]) -> (r: Result<Self, DecodeError>) {
        let (programs, watched_components) = <AssemblerInfoLayout<'a>>::parse(input)?;
        Ok(AssemblerInfo { programs, watched_components })
    }
}

/// What only a custom component has.
#[derive(Clone, Debug)]
pub struct CustomCompData<'a> {
    pub id: i64,
    pub static_states: Slice<'a, u16, (i64, i64)>,
    pub linked_word_sizes: Slice<'a, u16, (i64, i64)>,
}

/// What a `CustomCompData` stands for.
pub struct CustomCompDataModel {
    pub id: i64,
    pub static_states: Seq<(i64, i64)>,
    pub linked_word_sizes: Seq<(i64, i64)>,
}

/// The fields of a `CustomCompData` in the order they have on the wire.
pub type CustomCompDataLayout<'a> = (
    i64,
    (Slice<'a, u16, (i64, i64)>, Slice<'a, u16, (i64, i64)>),
);

/// What the fields of a `CustomCompData` stand for, in the order of the layout.
pub type CustomCompDataFields = (i64, (Seq<(i64, i64)>, Seq<(i64, i64)>));

impl CustomCompDataModel {
    /// The fields in the order of the layout.
    pub open spec fn fields(self) -> CustomCompDataFields {
        (self.id, (self.static_states, self.linked_word_sizes))
    }

    /// The record with the given fields.
    pub open spec fn of(f: CustomCompDataFields) -> Self {
        CustomCompDataModel {
            id: f.0,
            static_states: f.1.0,
            linked_word_sizes: f.1.1,
        }
    }
}

impl<'a> View for CustomCompData<'a> {
    type V = CustomCompDataModel;

    open spec fn view(&self) -> CustomCompDataModel {
        CustomCompDataModel {
            id: self.id,
            static_states: self.static_states@,
            linked_word_sizes: self.linked_word_sizes@,
        }
    }
}

impl<'a> Parse<'a> for CustomCompData<'a> {
    open spec fn parse_spec(input: Seq<u8>) -> Result<(CustomCompDataModel, nat), DecodeError> {
        match <CustomCompDataLayout<'a>>::parse_spec(input) {
            Ok((fields, n)) => Ok((CustomCompDataModel::of(fields), n)),
            Err(e) => Err(e),
        }
    }

    proof fn lemma_parse_local(a: Seq<u8>, b: Seq<u8>) {
        <CustomCompDataLayout<'a>>::lemma_parse_local(a, b);
    }

    proof fn lemma_parse_truncated(a: Seq<u8>, k: nat) {
        <CustomCompDataLayout<'a>>::lemma_parse_truncated(a, k);
    }

    fn parse(input: &mut &'a [u8]) -> (r: Result<Self, DecodeError>) {
        let (id, (static_states, linked_word_sizes)) = <CustomCompDataLayout<'a>>::parse(input)?;
        Ok(CustomCompData { id, static_states, linked_word_sizes })
    }
}

/// One component of a circuit.
///
/// `custom_data` is on the wire for a component of kind `Custom`, and
/// `assembler_data` for a component of a kind that runs programs or shows
/// memory.
#[derive(Clone, Debug)]
pub struct Component<'a> {
    pub kind: ComponentKind,
    pub position: Point,
    pub rotation: u8,
    pub permanent_id: u64,
    pub custom_string: &'a str,
    pub settings: Slice<'a, u16, u64>,
    pub buffer_size: i64,
    pub ui_order: i16,
    pub word_size: i64,
    pub discarded: i64,
    pub custom_data: Option<CustomCompData<'a>>,
    pub assembler_data: Option<AssemblerInfo<'a>>,
}

/// What a `Component` stands for.
pub struct ComponentModel {
    pub kind: ComponentKind,
    pub position: Point,
    pub rotation: u8,
    pub permanent_id: u64,
    pub custom_string: Seq<char>,
    pub settings: Seq<u64>,
    pub buffer_size: i64,
    pub ui_order: i16,
    pub word_size: i64,
    pub discarded: i64,
    pub custom_data: Option<CustomCompDataModel>,
    pub assembler_data: Option<AssemblerInfoModel>,
}

/// The fields that every `Component` has, in the order they have on the wire.
pub type ComponentLayout<'a> = (
    ComponentKind,
    (
        Point,
        (
            u8,
            (
                u64,
                (
                    &'a str,
                    (Slice<'a, u16, u64>, (i64, (i16, (i64, i64)))),
                ),
            ),
        ),
    ),
);

/// What the fields that every `Component` has stand for.
pub type ComponentHead = (
    ComponentKind,
    (
        Point,
        (u8, (u64, (Seq<char>, (Seq<u64>, (i64, (i16, (i64, i64))))))),
    ),
);

/// Whether a component of this kind carries custom data.
pub open spec fn has_custom_data(kind: ComponentKind) -> bool {
    kind == ComponentKind::Custom
}

/// Whether a component of this kind carries programs.
pub open spec fn has_assembler_data(kind: ComponentKind) -> bool {
    kind == ComponentKind::Assembler || kind == ComponentKind::ProbeMemoryBit || kind
        == ComponentKind::ImmProbeMemoryBit || kind == ComponentKind::ProbeMemoryWord || kind
        == ComponentKind::StaticValue || kind == ComponentKind::Console || kind
        == ComponentKind::PixelScreen
}

/// Whether a component of this kind carries custom data.
pub fn kind_has_custom_data(kind: ComponentKind) -> (r: bool)
    ensures
        r == has_custom_data(kind),
{
    matches!(kind, ComponentKind::Custom)
}

/// Whether a component of this kind carries programs.
pub fn kind_has_assembler_data(kind: ComponentKind) -> (r: bool)
    ensures
        r == has_assembler_data(kind),
{
    matches!(
        kind,
        ComponentKind::Assembler | ComponentKind::ProbeMemoryBit | ComponentKind::ImmProbeMemoryBit
            | ComponentKind::ProbeMemoryWord | ComponentKind::StaticValue | ComponentKind::Console
            | ComponentKind::PixelScreen
    )
}

impl ComponentModel {
    /// The fields that every component has.
    pub open spec fn head(self) -> ComponentHead {
        (
            self.kind,
            (
                self.position,
                (
                    self.rotation,
                    (
                        self.permanent_id,
                        (
                            self.custom_string,
                            (
                                self.settings,
                                (
                                    self.buffer_size,
                                    (self.ui_order, (self.word_size, self.discarded)),
                                ),
                            ),
                        ),
                    ),
                ),
            ),
        )
    }

    /// The component with the given common fields and optional parts.
    pub open spec fn of(
        head: ComponentHead,
        custom_data: Option<CustomCompDataModel>,
        assembler_data: Option<AssemblerInfoModel>,
    ) -> Self {
        ComponentModel {
            kind: head.0,
            position: head.1.0,
            rotation: head.1.1.0,
            permanent_id: head.1.1.1.0,
            custom_string: head.1.1.1.1.0,
            settings: head.1.1.1.1.1.0,
            buffer_size: head.1.1.1.1.1.1.0,
            ui_order: head.1.1.1.1.1.1.1.0,
            word_size: head.1.1.1.1.1.1.1.1.0,
            discarded: head.1.1.1.1.1.1.1.1.1,
            custom_data,
            assembler_data,
        }
    }
}

impl<'a> View for Component<'a> {
    type V = ComponentModel;

    open spec fn view(&self) -> ComponentModel {
        ComponentModel {
            kind: self.kind,
            position: self.position,
            rotation: self.rotation,
            permanent_id: self.permanent_id,
            custom_string: self.custom_string@,
            settings: self.settings@,
            buffer_size: self.buffer_size,
            ui_order: self.ui_order,
            word_size: self.word_size,
            discarded: self.discarded,
            custom_data: view_of(self.custom_data),
            assembler_data: view_of(self.assembler_data),
        }
    }
}

impl<'a> Parse<'a> for Component<'a> {
    /// The common fields; then the custom data, for a component whose
    /// kind has it; then the assembler data, for a component whose kind
    /// has it. What is there is decided by the kind alone.
    open spec fn parse_spec(input: Seq<u8>) -> Result<(ComponentModel, nat), DecodeError> {
        match <ComponentLayout<'a>>::parse_spec(input) {
            Ok((head, n)) => match optional_spec::<CustomCompData<'a>>(
                has_custom_data(head.0),
                input.skip(n as int),
            ) {
                Ok((custom_data, m)) => match optional_spec::<AssemblerInfo<'a>>(
                    has_assembler_data(head.0),
                    input.skip((n + m) as int),
                ) {
                    Ok((assembler_data, k)) => Ok(
                        (ComponentModel::of(head, custom_data, assembler_data), n + m + k),
                    ),
                    Err(e) => Err(e),
                },
                Err(e) => Err(e),
            },
            Err(e) => Err(e),
        }
    }

    proof fn lemma_parse_local(a: Seq<u8>, b: Seq<u8>) {
        <ComponentLayout<'a>>::lemma_parse_local(a, b);
        let (head, n) = <ComponentLayout<'a>>::parse_spec(a).unwrap();
        let first = has_custom_data(head.0);
        let second = has_assembler_data(head.0);
        lemma_optional_local::<CustomCompData<'a>>(first, a.skip(n as int), b.skip(n as int));
        let m = optional_spec::<CustomCompData<'a>>(first, a.skip(n as int)).unwrap().1;
        let rest = a.skip((n + m) as int);
        lemma_optional_local::<AssemblerInfo<'a>>(second, rest, b.skip((n + m) as int));
        let k = optional_spec::<AssemblerInfo<'a>>(second, rest).unwrap().1;
        assert(a.skip(n as int).skip(m as int) =~= a.skip((n + m) as int));
        if a.take((n + m + k) as int) == b.take((n + m + k) as int) && n + m + k <= b.len() {
            lemma_split_prefix(a, b, n + m, k);
            lemma_split_prefix(a, b, n, m);
            assert(b.skip(n as int).skip(m as int) =~= b.skip((n + m) as int));
        }
    }

    proof fn lemma_parse_truncated(a: Seq<u8>, k: nat) {
        let (head, n) = <ComponentLayout<'a>>::parse_spec(a).unwrap();
        let cut = a.take(k as int);
        Self::lemma_parse_local(a, a);
        <ComponentLayout<'a>>::lemma_parse_local(a, cut);
        let first = has_custom_data(head.0);
        let second = has_assembler_data(head.0);
        lemma_optional_local::<CustomCompData<'a>>(first, a.skip(n as int), cut.skip(n as int));
        let m = optional_spec::<CustomCompData<'a>>(first, a.skip(n as int)).unwrap().1;
        assert(a.skip(n as int).skip(m as int) =~= a.skip((n + m) as int));
        if k < n {
            <ComponentLayout<'a>>::lemma_parse_truncated(a, k);
        } else {
            assert(a.take(n as int) =~= cut.take(n as int));
            assert(cut.skip(n as int) =~= a.skip(n as int).take(k - n));
            if k < n + m {
                lemma_optional_truncated::<CustomCompData<'a>>(
                    first,
                    a.skip(n as int),
                    (k - n) as nat,
                );
            } else {
                assert(a.skip(n as int).take(m as int) =~= cut.skip(n as int).take(m as int));
                assert(cut.skip(n as int).skip(m as int) =~= cut.skip((n + m) as int));
                assert(cut.skip((n + m) as int) =~= a.skip((n + m) as int).take(k - n - m));
                lemma_optional_truncated::<AssemblerInfo<'a>>(
                    second,
                    a.skip((n + m) as int),
                    (k - n - m) as nat,
                );
            }
        }
    }

    fn parse(input: &mut &'a [u8]) -> (r: Result<Self, DecodeError>) {
        let mut cur: &'a [u8] = *input;
        let (
            kind,
            (
                position,
                (
                    rotation,
                    (
                        permanent_id,
                        (
                            custom_string,
                            (
                                settings,
                                (
                                    buffer_size,
                                    (
                                        ui_order,
                                        (
                                            word_size,
                                            discarded,
                                        ),
                                    ),
                                ),
                            ),
                        ),
                    ),
                ),
            ),
        ) = <ComponentLayout<'a>>::parse(&mut cur)?;
        let ghost n = <ComponentLayout<'a>>::parse_spec(input@).unwrap().1;
        let ghost first = has_custom_data(kind);
        let ghost second = has_assembler_data(kind);
        proof {
            <ComponentLayout<'a>>::lemma_parse_local(input@, input@);
        }
        let with_custom_data = kind_has_custom_data(kind);
        let custom_data = parse_if::<CustomCompData<'a>>(with_custom_data, &mut cur)?;
        let ghost after = input@.skip(n as int);
        let ghost m = optional_spec::<CustomCompData<'a>>(first, after).unwrap().1;
        proof {
            lemma_optional_local::<CustomCompData<'a>>(first, after, after);
            assert(after.skip(m as int) =~= input@.skip((n + m) as int));
        }
        let with_assembler_data = kind_has_assembler_data(kind);
        let assembler_data = parse_if::<AssemblerInfo<'a>>(with_assembler_data, &mut cur)?;
        proof {
            let last = input@.skip((n + m) as int);
            let k = optional_spec::<AssemblerInfo<'a>>(second, last).unwrap().1;
            lemma_optional_local::<AssemblerInfo<'a>>(second, last, last);
            assert(last.skip(k as int) =~= input@.skip((n + m + k) as int));
        }
        *input = cur;
        Ok(
            Component {
                kind,
                position,
                rotation,
                permanent_id,
                custom_string,
                settings,
                buffer_size,
                ui_order,
                word_size,
                discarded,
                custom_data,
                assembler_data,
            },
        )
    }
}

/// One wire of a circuit.
#[derive(Clone, Debug)]
pub struct Wire<'a> {
    pub color: u8,
    pub comment: &'a str,
    pub start: Point,
    pub segments: WireSegments<'a>,
}

/// What a `Wire` stands for.
pub struct WireModel {
    pub color: u8,
    pub comment: Seq<char>,
    pub start: Point,
    pub segments: WirePath,
}

/// The fields of a `Wire` in the order they have on the wire.
pub type WireLayout<'a> = (u8, (&'a str, (Point, WireSegments<'a>)));

/// What the fields of a `Wire` stand for, in the order of the layout.
pub type WireFields = (u8, (Seq<char>, (Point, WirePath)));

impl WireModel {
    /// The fields in the order of the layout.
    pub open spec fn fields(self) -> WireFields {
        (self.color, (self.comment, (self.start, self.segments)))
    }

    /// The record with the given fields.
    pub open spec fn of(f: WireFields) -> Self {
        WireModel {
            color: f.0,
            comment: f.1.0,
            start: f.1.1.0,
            segments: f.1.1.1,
        }
    }
}

impl<'a> View for Wire<'a> {
    type V = WireModel;

    open spec fn view(&self) -> WireModel {
        WireModel {
            color: self.color,
            comment: self.comment@,
            start: self.start,
            segments: self.segments@,
        }
    }
}

impl<'a> Parse<'a> for Wire<'a> {
    open spec fn parse_spec(input: Seq<u8>) -> Result<(WireModel, nat), DecodeError> {
        match <WireLayout<'a>>::parse_spec(input) {
            Ok((fields, n)) => Ok((WireModel::of(fields), n)),
            Err(e) => Err(e),
        }
    }

    proof fn lemma_parse_local(a: Seq<u8>, b: Seq<u8>) {
        <WireLayout<'a>>::lemma_parse_local(a, b);
    }

    proof fn lemma_parse_truncated(a: Seq<u8>, k: nat) {
        <WireLayout<'a>>::lemma_parse_truncated(a, k);
    }

    fn parse(input: &mut &'a [u8]) -> (r: Result<Self, DecodeError>) {
        let (color, (comment, (start, segments))) = <WireLayout<'a>>::parse(input)?;
        Ok(Wire { color, comment, start, segments })
    }
}

impl<'a> Wired<'a> for Wire<'a> {
    open spec fn start_of(v: WireModel) -> Point {
        v.start
    }

    open spec fn path_of(v: WireModel) -> WirePath {
        v.segments
    }

    fn start(&self) -> (r: Point) {
        self.start
    }

    fn path(&self) -> (r: &WireSegments<'a>) {
        &self.segments
    }
}

/// What the check that follows the fields makes of a circuit: no two wires
/// may join the same two points.
pub open spec fn check_spec(v: CircuitDataModel) -> Result<(), DecodeError> {
    check_wires_spec::<Wire<'static>>(v.wires)
}

/// A whole circuit as format version 7 stores it.
#[derive(Clone, Debug)]
pub struct CircuitData<'a> {
    pub custom_id: i64,
    pub hub_id: u32,
    pub gate: i64,
    pub delay: i64,
    pub menu_visible: bool,
    pub clock_speed: u64,
    pub dependencies: Slice<'a, u16, i64>,
    pub description: &'a str,
    pub camera_position: Point,
    pub synced: SyncState,
    pub player_data: Slice<'a, u16, u8>,
    pub hub_description: &'a str,
    pub components: Slice<'a, u64, Component<'a>>,
    pub wires: Slice<'a, u64, Wire<'a>>,
}

/// What a `CircuitData` stands for.
pub struct CircuitDataModel {
    pub custom_id: i64,
    pub hub_id: u32,
    pub gate: i64,
    pub delay: i64,
    pub menu_visible: bool,
    pub clock_speed: u64,
    pub dependencies: Seq<i64>,
    pub description: Seq<char>,
    pub camera_position: Point,
    pub synced: SyncState,
    pub player_data: Seq<u8>,
    pub hub_description: Seq<char>,
    pub components: Seq<ComponentModel>,
    pub wires: Seq<WireModel>,
}

/// The fields of a `CircuitData` in the order they have on the wire. The
/// `u16` behind the sync state is skipped: no field keeps it.
pub type CircuitDataLayout<'a> = (
    i64,
    (
        u32,
        (
            i64,
            (
                i64,
                (
                    bool,
                    (
                        u64,
                        (
                            Slice<'a, u16, i64>,
                            (
                                &'a str,
                                (
                                    Point,
                                    (
                                        SyncState,
                                        (
                                            u16,
                                            (
                                                Slice<'a, u16, u8>,
                                                (
                                                    &'a str,
                                                    (
                                                        Slice<'a, u64, Component<'a>>,
                                                        Slice<'a, u64, Wire<'a>>,
                                                    ),
                                                ),
                                            ),
                                        ),
                                    ),
                                ),
                            ),
                        ),
                    ),
                ),
            ),
        ),
    ),
);

/// What the fields of a `CircuitData` stand for, in the order of the layout.
pub type CircuitDataFields = (
    i64,
    (
        u32,
        (
            i64,
            (
                i64,
                (
                    bool,
                    (
                        u64,
                        (
                            Seq<i64>,
                            (
                                Seq<char>,
                                (
                                    Point,
                                    (
                                        SyncState,
                                        (
                                            u16,
                                            (
                                                Seq<u8>,
                                                (
                                                    Seq<char>,
                                                    (
                                                        Seq<ComponentModel>,
                                                        Seq<WireModel>,
                                                    ),
                                                ),
                                            ),
                                        ),
                                    ),
                                ),
                            ),
                        ),
                    ),
                ),
            ),
        ),
    ),
);

impl CircuitDataModel {
    /// The fields in the order of the layout, with zero for what is skipped.
    pub open spec fn fields(self) -> CircuitDataFields {
        (
            self.custom_id,
            (
                self.hub_id,
                (
                    self.gate,
                    (
                        self.delay,
                        (
                            self.menu_visible,
                            (
                                self.clock_speed,
                                (
                                    self.dependencies,
                                    (
                                        self.description,
                                        (
                                            self.camera_position,
                                            (
                                                self.synced,
                                                (
                                                    0u16,
                                                    (
                                                        self.player_data,
                                                        (
                                                            self.hub_description,
                                                            (self.components, self.wires),
                                                        ),
                                                    ),
                                                ),
                                            ),
                                        ),
                                    ),
                                ),
                            ),
                        ),
                    ),
                ),
            ),
        )
    }

    /// The record with the given fields.
    pub open spec fn of(f: CircuitDataFields) -> Self {
        CircuitDataModel {
            custom_id: f.0,
            hub_id: f.1.0,
            gate: f.1.1.0,
            delay: f.1.1.1.0,
            menu_visible: f.1.1.1.1.0,
            clock_speed: f.1.1.1.1.1.0,
            dependencies: f.1.1.1.1.1.1.0,
            description: f.1.1.1.1.1.1.1.0,
            camera_position: f.1.1.1.1.1.1.1.1.0,
            synced: f.1.1.1.1.1.1.1.1.1.0,
            player_data: f.1.1.1.1.1.1.1.1.1.1.1.0,
            hub_description: f.1.1.1.1.1.1.1.1.1.1.1.1.0,
            components: f.1.1.1.1.1.1.1.1.1.1.1.1.1.0,
            wires: f.1.1.1.1.1.1.1.1.1.1.1.1.1.1,
        }
    }
}

impl<'a> View for CircuitData<'a> {
    type V = CircuitDataModel;

    open spec fn view(&self) -> CircuitDataModel {
        CircuitDataModel {
            custom_id: self.custom_id,
            hub_id: self.hub_id,
            gate: self.gate,
            delay: self.delay,
            menu_visible: self.menu_visible,
            clock_speed: self.clock_speed,
            dependencies: self.dependencies@,
            description: self.description@,
            camera_position: self.camera_position,
            synced: self.synced,
            player_data: self.player_data@,
            hub_description: self.hub_description@,
            components: self.components@,
            wires: self.wires@,
        }
    }
}

impl<'a> Parse<'a> for CircuitData<'a> {
    /// The fields in the order of the layout; the wires are then checked.
    open spec fn parse_spec(input: Seq<u8>) -> Result<(CircuitDataModel, nat), DecodeError> {
        match <CircuitDataLayout<'a>>::parse_spec(input) {
            Ok((fields, n)) => match check_spec(CircuitDataModel::of(fields)) {
                Ok(()) => Ok((CircuitDataModel::of(fields), n)),
                Err(e) => Err(e),
            },
            Err(e) => Err(e),
        }
    }

    proof fn lemma_parse_local(a: Seq<u8>, b: Seq<u8>) {
        <CircuitDataLayout<'a>>::lemma_parse_local(a, b);
    }

    proof fn lemma_parse_truncated(a: Seq<u8>, k: nat) {
        <CircuitDataLayout<'a>>::lemma_parse_truncated(a, k);
    }

    fn parse(input: &mut &'a [u8]) -> (r: Result<Self, DecodeError>) {
        let mut cur: &'a [u8] = *input;
        let (
            custom_id,
            (
                hub_id,
                (
                    gate,
                    (
                        delay,
                        (
                            menu_visible,
                            (
                                clock_speed,
                                (
                                    dependencies,
                                    (
                                        description,
                                        (
                                            camera_position,
                                            (
                                                synced,
                                                (
                                                    _,
                                                    (
                                                        player_data,
                                                        (
                                                            hub_description,
                                                            (
                                                                components,
                                                                wires,
                                                            ),
                                                        ),
                                                    ),
                                                ),
                                            ),
                                        ),
                                    ),
                                ),
                            ),
                        ),
                    ),
                ),
            ),
        ) = <CircuitDataLayout<'a>>::parse(&mut cur)?;
        let result = CircuitData {
            custom_id,
            hub_id,
            gate,
            delay,
            menu_visible,
            clock_speed,
            dependencies,
            description,
            camera_position,
            synced,
            player_data,
            hub_description,
            components,
            wires,
        };
        check_wires(&result.wires)?;
        *input = cur;
        Ok(result)
    }
}

/// A component whose kind code is none of the known ones fails to decode as
/// an unknown discriminant, whatever its other bytes are.
pub proof fn lemma_unknown_kind(input: Seq<u8>)
    requires
        u16::parse_spec(input) is Ok,
        ComponentKind::of_code(u16::parse_spec(input).unwrap().0) is None,
    ensures
        Component::parse_spec(input) == Err::<(ComponentModel, nat), DecodeError>(
            DecodeError::UnknownDiscriminant,
        ),
{
    reveal(pair_spec);
}

} // verus!
