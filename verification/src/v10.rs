//! Format version 10, the one version that is written as well as read.

pub mod kind;

use crate::compound::{pair_bytes, pair_spec};
use crate::compression::{compress, compressible, snap_compressed};
use crate::dispatch::{decode_spec, load_spec, Body, RecordModel, Version};
use crate::error::DecodeError;
use crate::geometry::{check_wires, check_wires_spec, Wired};
use crate::parser::{first_true, lemma_first_true, lemma_split_prefix, Codec, Encode, Parse};
use crate::slice::Slice;
pub use crate::sync::SyncState;
pub use crate::v10::kind::ComponentKind;
pub use crate::wire::{Point, WireDirection, WirePath, WireSegment, WireSegments};
use vstd::pervasive::unreached;
use vstd::prelude::*;

verus! {

/// A component that a custom component is linked to.
#[derive(Clone, Copy, Debug)]
pub struct LinkedComponent<'a> {
    pub permanent_id: i64,
    pub inner_id: i64,
    pub name: &'a str,
    pub offset: i64,
}

/// What a `LinkedComponent` stands for.
pub struct LinkedComponentModel {
    pub permanent_id: i64,
    pub inner_id: i64,
    pub name: Seq<char>,
    pub offset: i64,
}

/// The fields of a `LinkedComponent` in the order they have on the wire.
pub type LinkedComponentLayout<'a> = (i64, (i64, (&'a str, i64)));

impl<'a> View for LinkedComponent<'a> {
    type V = LinkedComponentModel;

    open spec fn view(&self) -> LinkedComponentModel {
        LinkedComponentModel {
            permanent_id: self.permanent_id,
            inner_id: self.inner_id,
            name: self.name@,
            offset: self.offset,
        }
    }
}

impl<'a> Parse<'a> for LinkedComponent<'a> {
    open spec fn parse_spec(input: Seq<u8>) -> Result<(LinkedComponentModel, nat), DecodeError> {
        match <LinkedComponentLayout<'a>>::parse_spec(input) {
            Ok(((permanent_id, (inner_id, (name, offset))), n)) => Ok(
                (LinkedComponentModel { permanent_id, inner_id, name, offset }, n),
            ),
            Err(e) => Err(e),
        }
    }

    proof fn lemma_parse_local(a: Seq<u8>, b: Seq<u8>) {
        <LinkedComponentLayout<'a>>::lemma_parse_local(a, b);
    }

    proof fn lemma_parse_truncated(a: Seq<u8>, k: nat) {
        <LinkedComponentLayout<'a>>::lemma_parse_truncated(a, k);
    }

    fn parse(input: &mut &'a [u8]) -> (r: Result<Self, DecodeError>) {
        let (permanent_id, (inner_id, (name, offset))) = <LinkedComponentLayout<'a>>::parse(input)?;
        Ok(LinkedComponent { permanent_id, inner_id, name, offset })
    }
}

impl<'a> Encode for LinkedComponent<'a> {
    open spec fn encode_spec(v: LinkedComponentModel) -> Seq<u8> {
        <LinkedComponentLayout<'a>>::encode_spec((v.permanent_id, (v.inner_id, (v.name, v.offset))))
    }

    open spec fn can_encode(v: LinkedComponentModel) -> bool {
        <LinkedComponentLayout<'a>>::can_encode((v.permanent_id, (v.inner_id, (v.name, v.offset))))
    }

    fn encode(&self, out: &mut Vec<u8>) {
        proof {
            reveal(pair_bytes);
        }
        (&self.permanent_id, (&self.inner_id, (&self.name, &self.offset))).encode(out);
    }
}

impl<'a> Codec<'a> for LinkedComponent<'a> {
    open spec fn round_trips(v: LinkedComponentModel) -> bool {
        true
    }

    open spec fn delimited(v: LinkedComponentModel) -> bool {
        true
    }

    proof fn lemma_decoded(input: Seq<u8>) {
        <LinkedComponentLayout<'a>>::lemma_decoded(input);
    }

    proof fn lemma_round_trip(v: LinkedComponentModel, rest: Seq<u8>) {
        <LinkedComponentLayout<'a>>::lemma_round_trip(
            (v.permanent_id, (v.inner_id, (v.name, v.offset))),
            rest,
        );
    }
}

/// The programs selected for a component that runs programs.
#[derive(Clone, Debug)]
pub struct AssemblerInfo<'a> {
    pub programs: Slice<'a, u16, (&'a str, &'a str)>,
}

/// What an `AssemblerInfo` stands for.
pub struct AssemblerInfoModel {
    pub programs: Seq<(Seq<char>, Seq<char>)>,
}

/// The field of an `AssemblerInfo` as it is on the wire.
pub type AssemblerInfoLayout<'a> = Slice<'a, u16, (&'a str, &'a str)>;

impl<'a> View for AssemblerInfo<'a> {
    type V = AssemblerInfoModel;

    open spec fn view(&self) -> AssemblerInfoModel {
        AssemblerInfoModel { programs: self.programs@ }
    }
}

impl<'a> Parse<'a> for AssemblerInfo<'a> {
    open spec fn parse_spec(input: Seq<u8>) -> Result<(AssemblerInfoModel, nat), DecodeError> {
        match <AssemblerInfoLayout<'a>>::parse_spec(input) {
            Ok((programs, n)) => Ok((AssemblerInfoModel { programs }, n)),
            Err(e) => Err(e),
        }
    }

    proof fn lemma_parse_local(a: Seq<u8>, b: Seq<u8>) {
        <AssemblerInfoLayout<'a>>::lemma_parse_local(a, b);
    }

    proof fn lemma_parse_truncated(a: Seq<u8>, k: nat) {
        <AssemblerInfoLayout<'a>>::lemma_parse_truncated(a, k);
    }

    fn parse(input: &mut &'a [u8]) -> (r: Result<Self, DecodeError>) {
        let programs = Slice::parse_with_length_prefix(input)?;
        Ok(AssemblerInfo { programs })
    }
}

impl<'a> Encode for AssemblerInfo<'a> {
    open spec fn encode_spec(v: AssemblerInfoModel) -> Seq<u8> {
        <AssemblerInfoLayout<'a>>::encode_spec(v.programs)
    }

    open spec fn can_encode(v: AssemblerInfoModel) -> bool {
        <AssemblerInfoLayout<'a>>::can_encode(v.programs)
    }

    fn encode(&self, out: &mut Vec<u8>) {
        self.programs.encode_with_length_prefix(out);
    }
}

impl<'a> Codec<'a> for AssemblerInfo<'a> {
    open spec fn round_trips(v: AssemblerInfoModel) -> bool {
        <AssemblerInfoLayout<'a>>::round_trips(v.programs)
    }

    open spec fn delimited(v: AssemblerInfoModel) -> bool {
        <AssemblerInfoLayout<'a>>::delimited(v.programs)
    }

    proof fn lemma_decoded(input: Seq<u8>) {
        <AssemblerInfoLayout<'a>>::lemma_decoded(input);
    }

    proof fn lemma_round_trip(v: AssemblerInfoModel, rest: Seq<u8>) {
        <AssemblerInfoLayout<'a>>::lemma_round_trip(v.programs, rest);
    }
}

/// What only a custom component has.
#[derive(Clone, Debug)]
pub struct CustomCompData<'a> {
    pub id: i64,
    pub static_states: Slice<'a, u16, (i64, i64)>,
}

/// What a `CustomCompData` stands for.
pub struct CustomCompDataModel {
    pub id: i64,
    pub static_states: Seq<(i64, i64)>,
}

/// The fields of a `CustomCompData` in the order they have on the wire.
pub type CustomCompDataLayout<'a> = (i64, Slice<'a, u16, (i64, i64)>);

impl<'a> View for CustomCompData<'a> {
    type V = CustomCompDataModel;

    open spec fn view(&self) -> CustomCompDataModel {
        CustomCompDataModel { id: self.id, static_states: self.static_states@ }
    }
}

impl<'a> Parse<'a> for CustomCompData<'a> {
    open spec fn parse_spec(input: Seq<u8>) -> Result<(CustomCompDataModel, nat), DecodeError> {
        match <CustomCompDataLayout<'a>>::parse_spec(input) {
            Ok(((id, static_states), n)) => Ok((CustomCompDataModel { id, static_states }, n)),
            Err(e) => Err(e),
        }
    }

    proof fn lemma_parse_local(a: Seq<u8>, b: Seq<u8>) {
        <CustomCompDataLayout<'a>>::lemma_parse_local(a, b);
    }

    proof fn lemma_parse_truncated(a: Seq<u8>, k: nat) {
        <CustomCompDataLayout<'a>>::lemma_parse_truncated(a, k);
    }

    fn parse(input: &mut &'a [u8]) -> (r: Result<Self, DecodeError>) {
        let (id, static_states) = <CustomCompDataLayout<'a>>::parse(input)?;
        Ok(CustomCompData { id, static_states })
    }
}

impl<'a> Encode for CustomCompData<'a> {
    open spec fn encode_spec(v: CustomCompDataModel) -> Seq<u8> {
        <CustomCompDataLayout<'a>>::encode_spec((v.id, v.static_states))
    }

    open spec fn can_encode(v: CustomCompDataModel) -> bool {
        <CustomCompDataLayout<'a>>::can_encode((v.id, v.static_states))
    }

    fn encode(&self, out: &mut Vec<u8>) {
        proof {
            reveal(pair_bytes);
        }
        (&self.id, &self.static_states).encode(out);
    }
}

impl<'a> Codec<'a> for CustomCompData<'a> {
    open spec fn round_trips(v: CustomCompDataModel) -> bool {
        <CustomCompDataLayout<'a>>::round_trips((v.id, v.static_states))
    }

    open spec fn delimited(v: CustomCompDataModel) -> bool {
        <CustomCompDataLayout<'a>>::delimited((v.id, v.static_states))
    }

    proof fn lemma_decoded(input: Seq<u8>) {
        <CustomCompDataLayout<'a>>::lemma_decoded(input);
    }

    proof fn lemma_round_trip(v: CustomCompDataModel, rest: Seq<u8>) {
        <CustomCompDataLayout<'a>>::lemma_round_trip((v.id, v.static_states), rest);
    }
}

/// One component of a circuit.
///
/// `custom_data` is on the wire for a component of kind `Custom` and for no
/// other.
#[derive(Clone, Debug)]
pub struct Component<'a> {
    pub kind: ComponentKind,
    pub position: Point,
    pub rotation: u8,
    pub permanent_id: u64,
    pub custom_string: &'a str,
    pub settings: Slice<'a, u16, u64>,
    pub buffer_size: i64,
    pub ui_order: i16,
    pub word_size: i64,
    pub linked_components: Slice<'a, u16, LinkedComponent<'a>>,
    pub selected_programs: AssemblerInfo<'a>,
    pub custom_data: Option<CustomCompData<'a>>,
}

/// What a `Component` stands for.
pub struct ComponentModel {
    pub kind: ComponentKind,
    pub position: Point,
    pub rotation: u8,
    pub permanent_id: u64,
    pub custom_string: Seq<char>,
    pub settings: Seq<u64>,
    pub buffer_size: i64,
    pub ui_order: i16,
    pub word_size: i64,
    pub linked_components: Seq<LinkedComponentModel>,
    pub selected_programs: AssemblerInfoModel,
    pub custom_data: Option<CustomCompDataModel>,
}

/// The fields that every `Component` has, in the order they have on the wire.
pub type ComponentLayout<'a> = (
    ComponentKind,
    (
        Point,
        (
            u8,
            (
                u64,
                (
                    &'a str,
                    (
                        Slice<'a, u16, u64>,
                        (i64, (i16, (i64, (Slice<'a, u16, LinkedComponent<'a>>, AssemblerInfo<'a>)))),
                    ),
                ),
            ),
        ),
    ),
);

/// What the fields that every `Component` has stand for.
pub type ComponentHead = (
    ComponentKind,
    (
        Point,
        (
            u8,
            (
                u64,
                (
                    Seq<char>,
                    (Seq<u64>, (i64, (i16, (i64, (Seq<LinkedComponentModel>, AssemblerInfoModel))))),
                ),
            ),
        ),
    ),
);

impl ComponentModel {
    /// The fields that every component has.
    pub open spec fn head(self) -> ComponentHead {
        (
            self.kind,
            (
                self.position,
                (
                    self.rotation,
                    (
                        self.permanent_id,
                        (
                            self.custom_string,
                            (
                                self.settings,
                                (
                                    self.buffer_size,
                                    (
                                        self.ui_order,
                                        (
                                            self.word_size,
                                            (self.linked_components, self.selected_programs),
                                        ),
                                    ),
                                ),
                            ),
                        ),
                    ),
                ),
            ),
        )
    }

    /// The component with the given common fields and custom data.
    pub open spec fn of(head: ComponentHead, custom_data: Option<CustomCompDataModel>) -> Self {
        ComponentModel {
            kind: head.0,
            position: head.1.0,
            rotation: head.1.1.0,
            permanent_id: head.1.1.1.0,
            custom_string: head.1.1.1.1.0,
            settings: head.1.1.1.1.1.0,
            buffer_size: head.1.1.1.1.1.1.0,
            ui_order: head.1.1.1.1.1.1.1.0,
            word_size: head.1.1.1.1.1.1.1.1.0,
            linked_components: head.1.1.1.1.1.1.1.1.1.0,
            selected_programs: head.1.1.1.1.1.1.1.1.1.1,
            custom_data,
        }
    }
}

impl<'a> View for Component<'a> {
    type V = ComponentModel;

    open spec fn view(&self) -> ComponentModel {
        ComponentModel {
            kind: self.kind,
            position: self.position,
            rotation: self.rotation,
            permanent_id: self.permanent_id,
            custom_string: self.custom_string@,
            settings: self.settings@,
            buffer_size: self.buffer_size,
            ui_order: self.ui_order,
            word_size: self.word_size,
            linked_components: self.linked_components@,
            selected_programs: self.selected_programs@,
            custom_data: match self.custom_data {
                Some(data) => Some(data@),
                None => None,
            },
        }
    }
}

impl<'a> Parse<'a> for Component<'a> {
    /// The common fields; then, for a component of kind `Custom` and for no
    /// other, its custom data.
    open spec fn parse_spec(input: Seq<u8>) -> Result<(ComponentModel, nat), DecodeError> {
        match <ComponentLayout<'a>>::parse_spec(input) {
            Ok((head, n)) => if head.0 == ComponentKind::Custom {
                match CustomCompData::parse_spec(input.skip(n as int)) {
                    Ok((data, m)) => Ok((ComponentModel::of(head, Some(data)), n + m)),
                    Err(e) => Err(e),
                }
            } else {
                Ok((ComponentModel::of(head, None), n))
            },
            Err(e) => Err(e),
        }
    }

    proof fn lemma_parse_local(a: Seq<u8>, b: Seq<u8>) {
        <ComponentLayout<'a>>::lemma_parse_local(a, b);
        let (head, n) = <ComponentLayout<'a>>::parse_spec(a).unwrap();
        if head.0 == ComponentKind::Custom {
            CustomCompData::lemma_parse_local(a.skip(n as int), b.skip(n as int));
            let m = CustomCompData::parse_spec(a.skip(n as int)).unwrap().1;
            if a.take((n + m) as int) == b.take((n + m) as int) && n + m <= b.len() {
                lemma_split_prefix(a, b, n, m);
            }
        }
    }

    proof fn lemma_parse_truncated(a: Seq<u8>, k: nat) {
        let (head, n) = <ComponentLayout<'a>>::parse_spec(a).unwrap();
        Self::lemma_parse_local(a, a);
        <ComponentLayout<'a>>::lemma_parse_local(a, a.take(k as int));
        if k < n {
            <ComponentLayout<'a>>::lemma_parse_truncated(a, k);
        } else {
            assert(a.take(n as int) =~= a.take(k as int).take(n as int));
            assert(a.take(k as int).skip(n as int) =~= a.skip(n as int).take(k - n));
            CustomCompData::lemma_parse_truncated(a.skip(n as int), (k - n) as nat);
        }
    }

    fn parse(input: &mut &'a [u8]) -> (r: Result<Self, DecodeError>) {
        let mut cur: &'a [u8] = *input;
        let (
            kind,
            (
                position,
                (
                    rotation,
                    (
                        permanent_id,
                        (
                            custom_string,
                            (
                                settings,
                                (
                                    buffer_size,
                                    (ui_order, (word_size, (linked_components, selected_programs))),
                                ),
                            ),
                        ),
                    ),
                ),
            ),
        ) = <ComponentLayout<'a>>::parse(&mut cur)?;
        let ghost n = <ComponentLayout<'a>>::parse_spec(input@).unwrap().1;
        let custom_data = if matches!(kind, ComponentKind::Custom) {
            let data = CustomCompData::parse(&mut cur)?;
            proof {
                <ComponentLayout<'a>>::lemma_parse_local(input@, input@);
                CustomCompData::lemma_parse_local(input@.skip(n as int), input@.skip(n as int));
                let m = CustomCompData::parse_spec(input@.skip(n as int)).unwrap().1;
                assert(input@.skip(n as int).skip(m as int) =~= input@.skip((n + m) as int));
            }
            Some(data)
        } else {
            None
        };
        *input = cur;
        Ok(
            Component {
                kind,
                position,
                rotation,
                permanent_id,
                custom_string,
                settings,
                buffer_size,
                ui_order,
                word_size,
                linked_components,
                selected_programs,
                custom_data,
            },
        )
    }
}

impl<'a> Encode for Component<'a> {
    /// The common fields, then the custom data where there is any.
    open spec fn encode_spec(v: ComponentModel) -> Seq<u8> {
        <ComponentLayout<'a>>::encode_spec(v.head()) + match v.custom_data {
            Some(data) => CustomCompData::encode_spec(data),
            None => Seq::empty(),
        }
    }

    open spec fn can_encode(v: ComponentModel) -> bool {
        <ComponentLayout<'a>>::can_encode(v.head()) && match v.custom_data {
            Some(data) => CustomCompData::can_encode(data),
            None => true,
        }
    }

    fn encode(&self, out: &mut Vec<u8>) {
        proof {
            reveal(pair_bytes);
        }
        (
            &self.kind,
            (
                &self.position,
                (
                    &self.rotation,
                    (
                        &self.permanent_id,
                        (
                            &self.custom_string,
                            (
                                &self.settings,
                                (
                                    &self.buffer_size,
                                    (
                                        &self.ui_order,
                                        (
                                            &self.word_size,
                                            (&self.linked_components, &self.selected_programs),
                                        ),
                                    ),
                                ),
                            ),
                        ),
                    ),
                ),
            ),
        ).encode(out);
        let ghost mid = out@;
        self.custom_data.encode(out);
        proof {
            let head = <ComponentLayout<'a>>::encode_spec(self@.head());
            let tail = Option::<CustomCompData<'a>>::encode_spec(self.custom_data);
            assert(mid == old(out)@ + head);
            assert(old(out)@ + head + tail =~= old(out)@ + (head + tail));
        }
    }
}

impl<'a> Codec<'a> for Component<'a> {
    /// A component is read back as it was written where its parts are, and
    /// where it has custom data exactly if its kind is `Custom`.
    open spec fn round_trips(v: ComponentModel) -> bool {
        &&& <ComponentLayout<'a>>::round_trips(v.head())
        &&& (v.custom_data is Some <==> v.kind == ComponentKind::Custom)
        &&& match v.custom_data {
            Some(data) => CustomCompData::round_trips(data),
            None => true,
        }
    }

    open spec fn delimited(v: ComponentModel) -> bool {
        &&& <ComponentLayout<'a>>::delimited(v.head())
        &&& match v.custom_data {
            Some(data) => CustomCompData::delimited(data),
            None => true,
        }
    }

    proof fn lemma_decoded(input: Seq<u8>) {
        <ComponentLayout<'a>>::lemma_decoded(input);
        let (head, n) = <ComponentLayout<'a>>::parse_spec(input).unwrap();
        if head.0 == ComponentKind::Custom {
            CustomCompData::lemma_decoded(input.skip(n as int));
        }
    }

    proof fn lemma_round_trip(v: ComponentModel, rest: Seq<u8>) {
        let head = <ComponentLayout<'a>>::encode_spec(v.head());
        match v.custom_data {
            Some(data) => {
                let tail = CustomCompData::encode_spec(data);
                <ComponentLayout<'a>>::lemma_round_trip(v.head(), tail + rest);
                CustomCompData::lemma_round_trip(data, rest);
                assert((head + tail) + rest =~= head + (tail + rest));
                assert((head + (tail + rest)).skip(head.len() as int) =~= tail + rest);
            },
            None => {
                <ComponentLayout<'a>>::lemma_round_trip(v.head(), rest);
                assert(head + Seq::<u8>::empty() =~= head);
            },
        }
    }
}

/// One wire of a circuit.
#[derive(Clone, Debug)]
pub struct Wire<'a> {
    pub color: u8,
    pub comment: &'a str,
    pub start: Point,
    pub segments: WireSegments<'a>,
}

/// What a `Wire` stands for.
pub struct WireModel {
    pub color: u8,
    pub comment: Seq<char>,
    pub start: Point,
    pub segments: WirePath,
}

/// The fields of a `Wire` in the order they have on the wire.
pub type WireLayout<'a> = (u8, (&'a str, (Point, WireSegments<'a>)));

impl<'a> View for Wire<'a> {
    type V = WireModel;

    open spec fn view(&self) -> WireModel {
        WireModel {
            color: self.color,
            comment: self.comment@,
            start: self.start,
            segments: self.segments@,
        }
    }
}

impl<'a> Parse<'a> for Wire<'a> {
    open spec fn parse_spec(input: Seq<u8>) -> Result<(WireModel, nat), DecodeError> {
        match <WireLayout<'a>>::parse_spec(input) {
            Ok(((color, (comment, (start, segments))), n)) => Ok(
                (WireModel { color, comment, start, segments }, n),
            ),
            Err(e) => Err(e),
        }
    }

    proof fn lemma_parse_local(a: Seq<u8>, b: Seq<u8>) {
        <WireLayout<'a>>::lemma_parse_local(a, b);
    }

    proof fn lemma_parse_truncated(a: Seq<u8>, k: nat) {
        <WireLayout<'a>>::lemma_parse_truncated(a, k);
    }

    fn parse(input: &mut &'a [u8]) -> (r: Result<Self, DecodeError>) {
        let (color, (comment, (start, segments))) = <WireLayout<'a>>::parse(input)?;
        Ok(Wire { color, comment, start, segments })
    }
}

impl<'a> Encode for Wire<'a> {
    open spec fn encode_spec(v: WireModel) -> Seq<u8> {
        <WireLayout<'a>>::encode_spec((v.color, (v.comment, (v.start, v.segments))))
    }

    open spec fn can_encode(v: WireModel) -> bool {
        <WireLayout<'a>>::can_encode((v.color, (v.comment, (v.start, v.segments))))
    }

    fn encode(&self, out: &mut Vec<u8>) {
        proof {
            reveal(pair_bytes);
        }
        (&self.color, (&self.comment, (&self.start, &self.segments))).encode(out);
    }
}

impl<'a> Codec<'a> for Wire<'a> {
    /// A wire is read back as it was written where its path is: a teleport
    /// wire, that is.
    open spec fn round_trips(v: WireModel) -> bool {
        <WireLayout<'a>>::round_trips((v.color, (v.comment, (v.start, v.segments))))
    }

    open spec fn delimited(v: WireModel) -> bool {
        <WireLayout<'a>>::delimited((v.color, (v.comment, (v.start, v.segments))))
    }

    proof fn lemma_decoded(input: Seq<u8>) {
        <WireLayout<'a>>::lemma_decoded(input);
    }

    proof fn lemma_round_trip(v: WireModel, rest: Seq<u8>) {
        <WireLayout<'a>>::lemma_round_trip((v.color, (v.comment, (v.start, v.segments))), rest);
    }
}

impl<'a> Wired<'a> for Wire<'a> {
    open spec fn start_of(v: WireModel) -> Point {
        v.start
    }

    open spec fn path_of(v: WireModel) -> WirePath {
        v.segments
    }

    fn start(&self) -> (r: Point) {
        self.start
    }

    fn path(&self) -> (r: &WireSegments<'a>) {
        &self.segments
    }
}

/// Whether a component of this kind must have a positive word size.
pub open spec fn needs_word_size(kind: ComponentKind) -> bool {
    kind == ComponentKind::StaticIndexer
}

/// Whether this kind is known but deliberately not decoded.
pub open spec fn unsupported(kind: ComponentKind) -> bool {
    kind == ComponentKind::MakerWord2 || kind == ComponentKind::MakerWord4 || kind
        == ComponentKind::MakerWord8
}

/// Whether a component breaks one of the two rules on components.
pub open spec fn faulty(c: ComponentModel) -> bool {
    (needs_word_size(c.kind) && c.word_size <= 0) || unsupported(c.kind)
}

/// For each component of a list, whether it is faulty.
pub open spec fn faults(components: Seq<ComponentModel>) -> Seq<bool> {
    Seq::new(components.len(), |i: int| faulty(components[i]))
}

/// What the check of a list of components comes to: the first faulty
/// component fails it, with the rule that the component breaks.
pub open spec fn check_components_spec(components: Seq<ComponentModel>) -> Result<
    (),
    DecodeError,
> {
    match first_true(faults(components)) {
        Some(i) => if unsupported(components[i as int].kind) {
            Err(DecodeError::UnsupportedComponent { index: i as usize })
        } else {
            Err(DecodeError::NonPositiveWordSize { index: i as usize })
        },
        None => Ok(()),
    }
}

/// Checks the two rules on components: a component of a kind that needs a
/// word size has a positive one, and no component is of an unsupported kind.
pub fn check_components<'a>(components: &Slice<'a, u64, Component<'a>>) -> (r: Result<
    (),
    DecodeError,
>)
    ensures
        r == check_components_spec(components@),
{
    let mut done: usize = 0;
    let mut it = components.iter();
    let ghost flags = faults(components@);
    proof {
        assert(components@.skip(0) =~= components@);
    }
    loop
        invariant
            done <= components@.len() <= usize::MAX,
            it@ == components@.skip(done as int),
            flags == faults(components@),
            forall|j: int| 0 <= j < done ==> !#[trigger] flags[j],
        ensures
            done == components@.len(),
            forall|j: int| 0 <= j < done ==> !#[trigger] flags[j],
        decreases components@.len() - done,
    {
        match it.next() {
            None => {
                break ;
            },
            Some(component) => {
                let component: &Component<'a> = component.as_inner_ref();
                proof {
                    assert(component@ == components@[done as int]);
                    assert(components@.skip(done as int).skip(1) =~= components@.skip(done + 1));
                    lemma_first_true(flags);
                }
                if matches!(component.kind, ComponentKind::StaticIndexer) && component.word_size
                    <= 0 {
                    proof {
                        assert(flags[done as int]);
                    }
                    return Err(DecodeError::NonPositiveWordSize { index: done });
                }
                if matches!(
                    component.kind,
                    ComponentKind::MakerWord2 | ComponentKind::MakerWord4 | ComponentKind::MakerWord8
                ) {
                    proof {
                        assert(flags[done as int]);
                    }
                    return Err(DecodeError::UnsupportedComponent { index: done });
                }
                done = done + 1;
            },
        }
    }
    proof {
        lemma_first_true(flags);
    }
    Ok(())
}

/// A whole circuit as format version 10 stores it.
#[derive(Clone, Debug)]
pub struct CircuitData<'a> {
    pub custom_id: i64,
    pub hub_id: u32,
    pub gate: i64,
    pub delay: i64,
    pub menu_visible: bool,
    pub clock_speed: u64,
    pub dependencies: Slice<'a, u16, i64>,
    pub description: &'a str,
    pub camera_position: Point,
    pub synced: SyncState,
    pub player_data: Slice<'a, u16, u8>,
    pub hub_description: &'a str,
    pub components: Slice<'a, u64, Component<'a>>,
    pub wires: Slice<'a, u64, Wire<'a>>,
}

/// What a `CircuitData` stands for.
pub struct CircuitDataModel {
    pub custom_id: i64,
    pub hub_id: u32,
    pub gate: i64,
    pub delay: i64,
    pub menu_visible: bool,
    pub clock_speed: u64,
    pub dependencies: Seq<i64>,
    pub description: Seq<char>,
    pub camera_position: Point,
    pub synced: SyncState,
    pub player_data: Seq<u8>,
    pub hub_description: Seq<char>,
    pub components: Seq<ComponentModel>,
    pub wires: Seq<WireModel>,
}

/// The fields of a `CircuitData` in the order they have on the wire. The
/// `u16` behind the sync state is kept by no field: it is skipped when read
/// and written as zero.
pub type CircuitDataLayout<'a> = (
    i64,
    (
        u32,
        (
            i64,
            (
                i64,
                (
                    bool,
                    (
                        u64,
                        (
                            Slice<'a, u16, i64>,
                            (
                                &'a str,
                                (
                                    Point,
                                    (
                                        SyncState,
                                        (
                                            u16,
                                            (
                                                Slice<'a, u16, u8>,
                                                (
                                                    &'a str,
                                                    (
                                                        Slice<'a, u64, Component<'a>>,
                                                        Slice<'a, u64, Wire<'a>>,
                                                    ),
                                                ),
                                            ),
                                        ),
                                    ),
                                ),
                            ),
                        ),
                    ),
                ),
            ),
        ),
    ),
);

/// What the fields of a `CircuitData` stand for, in the order of the layout.
pub type CircuitDataFields = (
    i64,
    (
        u32,
        (
            i64,
            (
                i64,
                (
                    bool,
                    (
                        u64,
                        (
                            Seq<i64>,
                            (
                                Seq<char>,
                                (
                                    Point,
                                    (
                                        SyncState,
                                        (
                                            u16,
                                            (
                                                Seq<u8>,
                                                (Seq<char>, (Seq<ComponentModel>, Seq<WireModel>)),
                                            ),
                                        ),
                                    ),
                                ),
                            ),
                        ),
                    ),
                ),
            ),
        ),
    ),
);

impl CircuitDataModel {
    /// The fields in the order of the layout, with zero for the skipped one.
    pub open spec fn fields(self) -> CircuitDataFields {
        (
            self.custom_id,
            (
                self.hub_id,
                (
                    self.gate,
                    (
                        self.delay,
                        (
                            self.menu_visible,
                            (
                                self.clock_speed,
                                (
                                    self.dependencies,
                                    (
                                        self.description,
                                        (
                                            self.camera_position,
                                            (
                                                self.synced,
                                                (
                                                    0u16,
                                                    (
                                                        self.player_data,
                                                        (
                                                            self.hub_description,
                                                            (self.components, self.wires),
                                                        ),
                                                    ),
                                                ),
                                            ),
                                        ),
                                    ),
                                ),
                            ),
                        ),
                    ),
                ),
            ),
        )
    }

    /// The circuit with the given fields; the skipped one is dropped.
    pub open spec fn of(f: CircuitDataFields) -> Self {
        CircuitDataModel {
            custom_id: f.0,
            hub_id: f.1.0,
            gate: f.1.1.0,
            delay: f.1.1.1.0,
            menu_visible: f.1.1.1.1.0,
            clock_speed: f.1.1.1.1.1.0,
            dependencies: f.1.1.1.1.1.1.0,
            description: f.1.1.1.1.1.1.1.0,
            camera_position: f.1.1.1.1.1.1.1.1.0,
            synced: f.1.1.1.1.1.1.1.1.1.0,
            player_data: f.1.1.1.1.1.1.1.1.1.1.1.0,
            hub_description: f.1.1.1.1.1.1.1.1.1.1.1.1.0,
            components: f.1.1.1.1.1.1.1.1.1.1.1.1.1.0,
            wires: f.1.1.1.1.1.1.1.1.1.1.1.1.1.1,
        }
    }

    /// Whether every wire of the circuit is a teleport wire.
    pub open spec fn teleports_only(self) -> bool {
        forall|i: int|
            0 <= i < self.wires.len() ==> (#[trigger] self.wires[i]).segments is TeleWireEnd
    }
}

impl<'a> View for CircuitData<'a> {
    type V = CircuitDataModel;

    open spec fn view(&self) -> CircuitDataModel {
        CircuitDataModel {
            custom_id: self.custom_id,
            hub_id: self.hub_id,
            gate: self.gate,
            delay: self.delay,
            menu_visible: self.menu_visible,
            clock_speed: self.clock_speed,
            dependencies: self.dependencies@,
            description: self.description@,
            camera_position: self.camera_position,
            synced: self.synced,
            player_data: self.player_data@,
            hub_description: self.hub_description@,
            components: self.components@,
            wires: self.wires@,
        }
    }
}

/// What the checks that follow the fields make of a circuit.
pub open spec fn check_spec(v: CircuitDataModel) -> Result<(), DecodeError> {
    match check_components_spec(v.components) {
        Err(e) => Err(e),
        Ok(()) => check_wires_spec::<Wire<'static>>(v.wires),
    }
}

impl<'a> Parse<'a> for CircuitData<'a> {
    /// The fields in the order of the layout. The components are then
    /// checked, and then the wires; the first rule that is broken fails the
    /// decode.
    open spec fn parse_spec(input: Seq<u8>) -> Result<(CircuitDataModel, nat), DecodeError> {
        match <CircuitDataLayout<'a>>::parse_spec(input) {
            Ok((fields, n)) => match check_spec(CircuitDataModel::of(fields)) {
                Ok(()) => Ok((CircuitDataModel::of(fields), n)),
                Err(e) => Err(e),
            },
            Err(e) => Err(e),
        }
    }

    proof fn lemma_parse_local(a: Seq<u8>, b: Seq<u8>) {
        <CircuitDataLayout<'a>>::lemma_parse_local(a, b);
    }

    proof fn lemma_parse_truncated(a: Seq<u8>, k: nat) {
        <CircuitDataLayout<'a>>::lemma_parse_truncated(a, k);
    }

    fn parse(input: &mut &'a [u8]) -> (r: Result<Self, DecodeError>) {
        let mut cur: &'a [u8] = *input;
        let (
            custom_id,
            (
                hub_id,
                (
                    gate,
                    (
                        delay,
                        (
                            menu_visible,
                            (
                                clock_speed,
                                (
                                    dependencies,
                                    (
                                        description,
                                        (
                                            camera_position,
                                            (
                                                synced,
                                                (
                                                    _,
                                                    (
                                                        player_data,
                                                        (hub_description, (components, wires)),
                                                    ),
                                                ),
                                            ),
                                        ),
                                    ),
                                ),
                            ),
                        ),
                    ),
                ),
            ),
        ) = <CircuitDataLayout<'a>>::parse(&mut cur)?;
        let result = CircuitData {
            custom_id,
            hub_id,
            gate,
            delay,
            menu_visible,
            clock_speed,
            dependencies,
            description,
            camera_position,
            synced,
            player_data,
            hub_description,
            components,
            wires,
        };
        check_components(&result.components)?;
        check_wires(&result.wires)?;
        *input = cur;
        Ok(result)
    }
}

impl<'a> Encode for CircuitData<'a> {
    open spec fn encode_spec(v: CircuitDataModel) -> Seq<u8> {
        <CircuitDataLayout<'a>>::encode_spec(v.fields())
    }

    open spec fn can_encode(v: CircuitDataModel) -> bool {
        <CircuitDataLayout<'a>>::can_encode(v.fields())
    }

    fn encode(&self, out: &mut Vec<u8>) {
        proof {
            reveal(pair_bytes);
        }
        let skipped: u16 = 0;
        (
            &self.custom_id,
            (
                &self.hub_id,
                (
                    &self.gate,
                    (
                        &self.delay,
                        (
                            &self.menu_visible,
                            (
                                &self.clock_speed,
                                (
                                    &self.dependencies,
                                    (
                                        &self.description,
                                        (
                                            &self.camera_position,
                                            (
                                                &self.synced,
                                                (
                                                    &skipped,
                                                    (
                                                        &self.player_data,
                                                        (
                                                            &self.hub_description,
                                                            (&self.components, &self.wires),
                                                        ),
                                                    ),
                                                ),
                                            ),
                                        ),
                                    ),
                                ),
                            ),
                        ),
                    ),
                ),
            ),
        ).encode(out);
    }
}

impl<'a> Codec<'a> for CircuitData<'a> {
    /// A circuit is read back as it was written where its parts are and
    /// where it passes the checks that follow the fields.
    open spec fn round_trips(v: CircuitDataModel) -> bool {
        <CircuitDataLayout<'a>>::round_trips(v.fields()) && check_spec(v) is Ok
    }

    open spec fn delimited(v: CircuitDataModel) -> bool {
        <CircuitDataLayout<'a>>::delimited(v.fields())
    }

    proof fn lemma_round_trip(v: CircuitDataModel, rest: Seq<u8>) {
        <CircuitDataLayout<'a>>::lemma_round_trip(v.fields(), rest);
    }

    proof fn lemma_decoded(input: Seq<u8>) {
        <CircuitDataLayout<'a>>::lemma_decoded(input);
    }
}

/// The version byte that stands in front of a compressed body of this format.
pub const VERSION: u8 = 10;

/// Whether a circuit can be written as a save file: it has a wire form, and
/// that wire form is short enough to be compressed.
pub open spec fn can_save(v: CircuitDataModel) -> bool {
    CircuitData::can_encode(v) && compressible(CircuitData::encode_spec(v).len())
}

/// The save file of a circuit: the version byte, then the compressed body.
pub open spec fn save_spec(v: CircuitDataModel) -> Seq<u8> {
    seq![VERSION] + snap_compressed(CircuitData::encode_spec(v))
}

impl<'a> CircuitData<'a> {
    /// The save file of the circuit, as `encode_final` gives it, or `None`
    /// where the body is too long for the compressor.
    pub fn try_encode_final(&self) -> (r: Option<Vec<u8>>)
        requires
            Self::can_encode(self@),
        ensures
            r is Some <==> can_save(self@),
            r is Some ==> r.unwrap()@ == save_spec(self@) && load_spec(r.unwrap()@) == Ok::<
                Body,
                DecodeError,
            >(Body { version: Version::V10, bytes: Self::encode_spec(self@) }),
            r is Some && Self::round_trips(self@) ==> decode_spec(r.unwrap()@) == Ok::<
                RecordModel,
                DecodeError,
            >(RecordModel::V10(self@)),
    {
        let mut raw: Vec<u8> = Vec::new();
        self.encode(&mut raw);
        proof {
            assert(Seq::<u8>::empty() + Self::encode_spec(self@) =~= Self::encode_spec(self@));
            if Self::round_trips(self@) {
                Self::lemma_round_trip(self@, Seq::empty());
                assert(Self::encode_spec(self@) + Seq::<u8>::empty() =~= Self::encode_spec(self@));
            }
        }
        match compress(raw.as_slice()) {
            Ok(mut raw) => {
                let ghost block = raw@;
                raw.insert(0, VERSION);
                proof {
                    assert(raw@ =~= seq![VERSION] + block);
                    assert(raw@.skip(1) =~= block);
                }
                Some(raw)
            },
            Err(_) => None,
        }
    }

    /// The save file of the circuit: the version byte, then the body as
    /// `encode` writes it, compressed. Loading the file gives that body back,
    /// and decoding the file gives the circuit back where the circuit
    /// round-trips.
    pub fn encode_final(&self) -> (r: Vec<u8>)
        requires
            can_save(self@),
        ensures
            r@ == save_spec(self@),
            load_spec(r@) == Ok::<Body, DecodeError>(
                Body { version: Version::V10, bytes: Self::encode_spec(self@) },
            ),
            Self::round_trips(self@) ==> decode_spec(r@) == Ok::<RecordModel, DecodeError>(
                RecordModel::V10(self@),
            ),
    {
        match self.try_encode_final() {
            Some(raw) => raw,
            None => unreached(),
        }
    }
}

/// A circuit that was decoded from a body and has none but teleport wires
/// can be written again, and the body written for it decodes to the same
/// circuit.
///
/// A circuit with a wire that runs along segments is left out: a segment
/// list is written without the byte that ends it, so what is written for such
/// a circuit does not decode.
pub proof fn lemma_decode_encode(input: Seq<u8>)
    requires
        CircuitData::parse_spec(input) is Ok,
        CircuitData::parse_spec(input).unwrap().0.teleports_only(),
    ensures
        CircuitData::can_encode(CircuitData::parse_spec(input).unwrap().0),
        CircuitData::parse_spec(
            CircuitData::encode_spec(CircuitData::parse_spec(input).unwrap().0),
        ) == Ok::<(CircuitDataModel, nat), DecodeError>(
            (
                CircuitData::parse_spec(input).unwrap().0,
                CircuitData::encode_spec(CircuitData::parse_spec(input).unwrap().0).len(),
            ),
        ),
{
    let v = CircuitData::parse_spec(input).unwrap().0;
    CircuitData::lemma_decoded(input);
    lemma_delimited(v);
    CircuitData::lemma_round_trip(v, Seq::empty());
    assert(CircuitData::encode_spec(v) + Seq::<u8>::empty() =~= CircuitData::encode_spec(v));
}

/// A circuit is written with every end in place exactly where it has none
/// but teleport wires.
pub proof fn lemma_delimited(v: CircuitDataModel)
    ensures
        CircuitData::delimited(v) <==> v.teleports_only(),
{
    assert forall|i: int| 0 <= i < v.components.len() implies Component::delimited(
        #[trigger] v.components[i],
    ) by {
    }
    if v.teleports_only() {
        assert forall|i: int| 0 <= i < v.wires.len() implies Wire::delimited(
            #[trigger] v.wires[i],
        ) by {
        }
    }
    if CircuitData::delimited(v) {
        assert forall|i: int| 0 <= i < v.wires.len() implies (#[trigger] v.wires[i]).segments
            is TeleWireEnd by {
            assert(Wire::delimited(v.wires[i]));
        }
    }
}

/// A component whose kind code is none of the known ones fails to decode as
/// an unknown discriminant, whatever its other bytes are.
pub proof fn lemma_unknown_kind(input: Seq<u8>)
    requires
        u16::parse_spec(input) is Ok,
        ComponentKind::of_code(u16::parse_spec(input).unwrap().0) is None,
    ensures
        Component::parse_spec(input) == Err::<(ComponentModel, nat), DecodeError>(
            DecodeError::UnknownDiscriminant,
        ),
{
    reveal(pair_spec);
}

} // verus!
