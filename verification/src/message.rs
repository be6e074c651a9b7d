//! The command messages the peripheral understands: a fixed eight-byte
//! header followed by a per-effect body, each with an exact byte layout.

use vstd::prelude::*;

use crate::colour::Colour;

verus! {

/// Store-mode flag: the effect persists in the device's non-volatile memory.
const VARSTORE: u8 = 0x01;

/// Selector of the scroll-wheel illumination zone.
pub const SCROLLWHEEL: u8 = 0x01;

/// Selector of the logo illumination zone.
pub const LOGO: u8 = 0x04;

/// The fixed command header: constant status, transaction id, remaining
/// packet count and protocol type, then the body length and the command
/// class and id of the message it opens.
struct Header {
    status: u8,
    transaction_id: u8,
    remaining_packets: u16,
    protocol_type: u8,
    args_len: u8,
    command_class: u8,
    command_id: u8,
}

/// The eight bytes a header serializes to; `remaining_packets` is the one
/// multi-byte field and is written big-endian.
spec fn header_bytes(h: Header) -> Seq<u8> {
    seq![
        h.status,
        h.transaction_id,
        (h.remaining_packets / 256) as u8,
        (h.remaining_packets % 256) as u8,
        h.protocol_type,
        h.args_len,
        h.command_class,
        h.command_id,
    ]
}

impl Header {
    /// Builds a header: the fixed fields are hardcoded, the three variable
    /// ones are copied from the arguments.
    fn new(args_len: u8, command_class: u8, command_id: u8) -> (h: Header)
        ensures
            h == (Header {
                status: 0x00,
                transaction_id: 0x3F,
                remaining_packets: 0x0000,
                protocol_type: 0x00,
                args_len,
                command_class,
                command_id,
            }),
    {
        Header {
            status: 0x00,
            transaction_id: 0x3F,
            remaining_packets: 0x0000,
            protocol_type: 0x00,
            args_len,
            command_class,
            command_id,
        }
    }

    /// Appends the eight header bytes to `out`.
    fn write_to(&self, out: &mut Vec<u8>)
        ensures
            final(out)@ == old(out)@ + header_bytes(*self),
    {
        out.push(self.status);
        out.push(self.transaction_id);
        out.push((self.remaining_packets / 256) as u8);
        out.push((self.remaining_packets % 256) as u8);
        out.push(self.protocol_type);
        out.push(self.args_len);
        out.push(self.command_class);
        out.push(self.command_id);
        proof {
            assert(out@ =~= old(out)@ + header_bytes(*self));
        }
    }
}

/// The six body bytes every effect command shares: the store-mode flag, the
/// zone selector, the effect id and three effect-specific argument bytes.
struct BaseArgs {
    set: u8,
    led: u8,
    effect_id: u8,
    arg1: u8,
    arg2: u8,
    arg3: u8,
}

/// The six bytes the shared body fields serialize to, in declared order.
spec fn base_args_bytes(a: BaseArgs) -> Seq<u8> {
    seq![a.set, a.led, a.effect_id, a.arg1, a.arg2, a.arg3]
}

impl BaseArgs {
    /// Builds the shared body fields; the store-mode flag is always the
    /// persist-to-device-storage value.
    fn new(led: u8, effect_id: u8, arg1: u8, arg2: u8, arg3: u8) -> (a: BaseArgs)
        ensures
            a == (BaseArgs { set: VARSTORE, led, effect_id, arg1, arg2, arg3 }),
    {
        BaseArgs { set: VARSTORE, led, effect_id, arg1, arg2, arg3 }
    }

    /// Appends the six shared body bytes to `out`.
    fn write_to(&self, out: &mut Vec<u8>)
        ensures
            final(out)@ == old(out)@ + base_args_bytes(*self),
    {
        out.push(self.set);
        out.push(self.led);
        out.push(self.effect_id);
        out.push(self.arg1);
        out.push(self.arg2);
        out.push(self.arg3);
        proof {
            assert(out@ =~= old(out)@ + base_args_bytes(*self));
        }
    }
}

/// Appends the three channel bytes of `c` to `out`, red first.
fn write_colour(c: &Colour, out: &mut Vec<u8>)
    ensures
        final(out)@ == old(out)@ + seq![c.rgb().0, c.rgb().1, c.rgb().2],
{
    out.push(c.red());
    out.push(c.green());
    out.push(c.blue());
    proof {
        assert(out@ =~= old(out)@ + seq![c.rgb().0, c.rgb().1, c.rgb().2]);
    }
}

/// A command message with a fixed serialized byte layout.
pub trait Message {
    /// The exact bytes the message serializes to, header first.
    spec fn wire_bytes(&self) -> Seq<u8>;

    /// Serializes the message into its wire bytes.
    fn serialize(&self) -> (r: Vec<u8>)
        ensures
            r@ == self.wire_bytes(),
    ;
}

/// The wire bytes of the off command for zone `led`.
pub open spec fn off_bytes(led: u8) -> Seq<u8> {
    seq![0x00u8, 0x3F, 0x00, 0x00, 0x00, 0x06, 0x0F, 0x02, 0x01, led, 0x00, 0x00, 0x00, 0x01]
}

/// Switches an illumination zone off.
pub struct Off {
    header: Header,
    base_args: BaseArgs,
}

impl Off {
    /// Builds the off command for zone `led`.
    pub fn new(led: u8) -> (m: Off)
        ensures
            m.wire_bytes() == off_bytes(led),
    {
        let m = Off {
            header: Header::new(6, 0x0F, 0x02),
            base_args: BaseArgs::new(led, 0x00, 0x00, 0x00, 0x01),
        };
        proof {
            assert(m.wire_bytes() =~= off_bytes(led));
        }
        m
    }
}

impl Message for Off {
    closed spec fn wire_bytes(&self) -> Seq<u8> {
        header_bytes(self.header) + base_args_bytes(self.base_args)
    }

    fn serialize(&self) -> (r: Vec<u8>) {
        let mut out: Vec<u8> = Vec::new();
        self.header.write_to(&mut out);
        self.base_args.write_to(&mut out);
        out
    }
}

/// The wire bytes of the static-colour command for zone `led` with channel
/// bytes `rgb`.
pub open spec fn static_bytes(led: u8, rgb: (u8, u8, u8)) -> Seq<u8> {
    seq![
        0x00u8,
        0x3F,
        0x00,
        0x00,
        0x00,
        0x09,
        0x0F,
        0x02,
        0x01,
        led,
        0x01,
        0x00,
        0x00,
        0x01,
        rgb.0,
        rgb.1,
        rgb.2,
    ]
}

/// Holds an illumination zone on one fixed colour.
pub struct Static {
    header: Header,
    base_args: BaseArgs,
    colour: Colour,
}

impl Static {
    /// Builds the static-colour command for zone `led`.
    pub fn new(led: u8, colour: Colour) -> (m: Static)
        ensures
            m.wire_bytes() == static_bytes(led, colour.rgb()),
    {
        let m = Static {
            header: Header::new(9, 0x0F, 0x02),
            base_args: BaseArgs::new(led, 0x01, 0x00, 0x00, 0x01),
            colour,
        };
        proof {
            assert(m.wire_bytes() =~= static_bytes(led, m.colour.rgb()));
        }
        m
    }
}

impl Message for Static {
    closed spec fn wire_bytes(&self) -> Seq<u8> {
        header_bytes(self.header) + base_args_bytes(self.base_args)
            + seq![self.colour.rgb().0, self.colour.rgb().1, self.colour.rgb().2]
    }

    fn serialize(&self) -> (r: Vec<u8>) {
        let mut out: Vec<u8> = Vec::new();
        self.header.write_to(&mut out);
        self.base_args.write_to(&mut out);
        write_colour(&self.colour, &mut out);
        out
    }
}

/// The channel bytes of an optional colour.
pub open spec fn colour_channels(c: Option<Colour>) -> Option<(u8, u8, u8)> {
    match c {
        None => None,
        Some(c) => Some(c.rgb()),
    }
}

/// The wire bytes of the breathing command for zone `led`. Without a colour
/// the body length byte is 6 and the first effect argument is 0x00; with
/// one they are 9 and 0x01, and the three channel bytes follow the fixed
/// body fields. A colour of zero on every channel stands in the colour
/// slots when none was given.
pub open spec fn breath_bytes(led: u8, rgb: Option<(u8, u8, u8)>) -> Seq<u8> {
    match rgb {
        None => seq![
            0x00u8,
            0x3F,
            0x00,
            0x00,
            0x00,
            0x06,
            0x0F,
            0x02,
            0x01,
            led,
            0x02,
            0x00,
            0x00,
            0x00,
            0x00,
            0x00,
            0x00,
        ],
        Some(rgb) => seq![
            0x00u8,
            0x3F,
            0x00,
            0x00,
            0x00,
            0x09,
            0x0F,
            0x02,
            0x01,
            led,
            0x02,
            0x01,
            0x00,
            0x01,
            rgb.0,
            rgb.1,
            rgb.2,
        ],
    }
}

/// Lets an illumination zone breathe, on one given colour or on colours of
/// the device's own choosing.
pub struct Breath {
    header: Header,
    base_args: BaseArgs,
    colour: Colour,
}

impl Breath {
    /// Builds the breathing command for zone `led`, with or without a
    /// chosen colour.
    pub fn new(led: u8, colour: Option<Colour>) -> (m: Breath)
        ensures
            m.wire_bytes() == breath_bytes(led, colour_channels(colour)),
    {
        let m = match colour {
            None => Breath {
                header: Header::new(6, 0x0F, 0x02),
                base_args: BaseArgs::new(led, 0x02, 0x00, 0x00, 0x00),
                colour: Colour::black(),
            },
            Some(colour) => Breath {
                header: Header::new(9, 0x0F, 0x02),
                base_args: BaseArgs::new(led, 0x02, 0x01, 0x00, 0x01),
                colour,
            },
        };
        proof {
            assert(m.wire_bytes() =~= breath_bytes(led, colour_channels(colour)));
        }
        m
    }
}

impl Message for Breath {
    closed spec fn wire_bytes(&self) -> Seq<u8> {
        header_bytes(self.header) + base_args_bytes(self.base_args)
            + seq![self.colour.rgb().0, self.colour.rgb().1, self.colour.rgb().2]
    }

    fn serialize(&self) -> (r: Vec<u8>) {
        let mut out: Vec<u8> = Vec::new();
        self.header.write_to(&mut out);
        self.base_args.write_to(&mut out);
        write_colour(&self.colour, &mut out);
        out
    }
}

/// The wire bytes of the spectrum-cycle command for zone `led`.
pub open spec fn spectrum_bytes(led: u8) -> Seq<u8> {
    seq![0x00u8, 0x3F, 0x00, 0x00, 0x00, 0x06, 0x0F, 0x02, 0x01, led, 0x03, 0x00, 0x00, 0x00]
}

/// Lets an illumination zone cycle through the whole colour spectrum.
pub struct Spectrum {
    header: Header,
    base_args: BaseArgs,
}

impl Spectrum {
    /// Builds the spectrum-cycle command for zone `led`.
    pub fn new(led: u8) -> (m: Spectrum)
        ensures
            m.wire_bytes() == spectrum_bytes(led),
    {
        let m = Spectrum {
            header: Header::new(6, 0x0F, 0x02),
            base_args: BaseArgs::new(led, 0x03, 0x00, 0x00, 0x00),
        };
        proof {
            assert(m.wire_bytes() =~= spectrum_bytes(led));
        }
        m
    }
}

impl Message for Spectrum {
    closed spec fn wire_bytes(&self) -> Seq<u8> {
        header_bytes(self.header) + base_args_bytes(self.base_args)
    }

    fn serialize(&self) -> (r: Vec<u8>) {
        let mut out: Vec<u8> = Vec::new();
        self.header.write_to(&mut out);
        self.base_args.write_to(&mut out);
        out
    }
}

/// The wire bytes of the brightness command for zone `led`: its body is the
/// store-mode flag and the zone selector alone.
pub open spec fn brightness_bytes(led: u8) -> Seq<u8> {
    seq![0x00u8, 0x3F, 0x00, 0x00, 0x00, 0x03, 0x0F, 0x04, 0x01, led]
}

/// Addresses the brightness of an illumination zone; it carries the
/// brightness command id in place of the effect-setting one.
pub struct Brightness {
    header: Header,
    set: u8,
    led: u8,
}

impl Brightness {
    /// Builds the brightness command for zone `led`.
    pub fn new(led: u8) -> (m: Brightness)
        ensures
            m.wire_bytes() == brightness_bytes(led),
    {
        let m = Brightness { header: Header::new(3, 0x0F, 0x04), set: VARSTORE, led };
        proof {
            assert(m.wire_bytes() =~= brightness_bytes(led));
        }
        m
    }
}

impl Message for Brightness {
    closed spec fn wire_bytes(&self) -> Seq<u8> {
        header_bytes(self.header) + seq![self.set, self.led]
    }

    fn serialize(&self) -> (r: Vec<u8>) {
        let mut out: Vec<u8> = Vec::new();
        self.header.write_to(&mut out);
        out.push(self.set);
        out.push(self.led);
        proof {
            assert(out@ =~= self.wire_bytes());
        }
        out
    }
}

} // verus!
