//! Layout of the reports that move a paired peripheral to another channel.

use vstd::prelude::*;

verus! {

/// Report id that opens every report.
pub const REPORT_ID: u8 = 0x10;

/// Opcode of the change-channel request.
pub const CHANGE_CHANNEL_OPCODE: u8 = 0x1C;

/// Command id that addresses the paired keyboard.
pub const KEYBOARD_COMMAND_ID: u8 = 0x09;

/// Command id that addresses the paired mouse.
pub const MOUSE_COMMAND_ID: u8 = 0x0A;

/// Number of bytes in a report.
pub const REPORT_LEN: usize = 7;

/// Highest channel number the receiver knows.
pub const MAX_CHANNEL: u8 = 2;

/// The report for one command, byte by byte.
pub open spec fn report(sub_device_index: u8, command_id: u8, channel: u8) -> Seq<u8> {
    seq![0x10u8, sub_device_index, command_id, 0x1Cu8, channel, 0x00u8, 0x00u8]
}

/// Builds the report that asks the peripheral behind `sub_device_index`, under
/// `command_id`, to move to `channel`.
pub fn encode(sub_device_index: u8, command_id: u8, channel: u8) -> (bytes: [u8; 7])
    ensures
        bytes@ == report(sub_device_index, command_id, channel),
{
    let bytes: [u8; 7] = [
        REPORT_ID,
        sub_device_index,
        command_id,
        CHANGE_CHANNEL_OPCODE,
        channel,
        0x00,
        0x00,
    ];
    assert(bytes@ =~= report(sub_device_index, command_id, channel));
    bytes
}

/// One change-channel command: whom it addresses and where it sends them.
#[derive(Clone, Copy, Debug, PartialEq, Eq)]
pub struct DeviceCommand {
    /// Sub-device index of the addressed peripheral.
    pub index: u8,
    /// Command id of the addressed peripheral.
    pub id: u8,
    /// Channel to move to.
    pub channel: u8,
}

impl DeviceCommand {
    /// The report this command is sent as.
    pub open spec fn bytes(self) -> Seq<u8> {
        report(self.index, self.id, self.channel)
    }

    /// The command for the keyboard, as a value of specifications.
    pub open spec fn spec_keyboard(index: u8, channel: u8) -> DeviceCommand {
        DeviceCommand { index, id: 0x09, channel }
    }

    /// The command for the mouse, as a value of specifications.
    pub open spec fn spec_mouse(index: u8, channel: u8) -> DeviceCommand {
        DeviceCommand { index, id: 0x0A, channel }
    }

    pub fn new(index: u8, id: u8, channel: u8) -> (cmd: Self)
        ensures
            cmd == (DeviceCommand { index, id, channel }),
    {
        Self { index, id, channel }
    }

    /// The command that moves the keyboard, addressed under `index`.
    pub fn keyboard(index: u8, channel: u8) -> (cmd: Self)
        ensures
            cmd == Self::spec_keyboard(index, channel),
    {
        Self { index, id: KEYBOARD_COMMAND_ID, channel }
    }

    /// The command that moves the mouse, addressed under `index`.
    pub fn mouse(index: u8, channel: u8) -> (cmd: Self)
        ensures
            cmd == Self::spec_mouse(index, channel),
    {
        Self { index, id: MOUSE_COMMAND_ID, channel }
    }

    /// Serialises the command into its seven-byte report.
    pub fn to_bytes(&self) -> (bytes: Vec<u8>)
        ensures
            bytes@ == self.bytes(),
    {
        let mut bytes: Vec<u8> = Vec::new();
        bytes.push(REPORT_ID);
        bytes.push(self.index);
        bytes.push(self.id);
        bytes.push(CHANGE_CHANNEL_OPCODE);
        bytes.push(self.channel);
        bytes.push(0x00);
        bytes.push(0x00);
        assert(bytes@ =~= self.bytes());
        bytes
    }

    /// The same report as a fixed-size array.
    pub fn to_array(&self) -> (bytes: [u8; 7])
        ensures
            bytes@ == self.bytes(),
    {
        encode(self.index, self.id, self.channel)
    }
}

/// Every report is seven bytes long and differs from the others only in the
/// sub-device index, the command id and the channel: the first byte is `0x10`,
/// the fourth `0x1C`, the last two zero; the keyboard's command carries id
/// `0x09` and the mouse's `0x0A`.
pub proof fn lemma_report_layout(index: u8, channel: u8)
    ensures
        DeviceCommand::spec_keyboard(index, channel).bytes().len() == 7,
        DeviceCommand::spec_keyboard(index, channel).bytes()[0] == 0x10,
        DeviceCommand::spec_keyboard(index, channel).bytes()[1] == index,
        DeviceCommand::spec_keyboard(index, channel).bytes()[2] == 0x09,
        DeviceCommand::spec_keyboard(index, channel).bytes()[3] == 0x1C,
        DeviceCommand::spec_keyboard(index, channel).bytes()[4] == channel,
        DeviceCommand::spec_keyboard(index, channel).bytes()[5] == 0,
        DeviceCommand::spec_keyboard(index, channel).bytes()[6] == 0,
        DeviceCommand::spec_mouse(index, channel).bytes().len() == 7,
        DeviceCommand::spec_mouse(index, channel).bytes()[0] == 0x10,
        DeviceCommand::spec_mouse(index, channel).bytes()[1] == index,
        DeviceCommand::spec_mouse(index, channel).bytes()[2] == 0x0A,
        DeviceCommand::spec_mouse(index, channel).bytes()[3] == 0x1C,
        DeviceCommand::spec_mouse(index, channel).bytes()[4] == channel,
        DeviceCommand::spec_mouse(index, channel).bytes()[5] == 0,
        DeviceCommand::spec_mouse(index, channel).bytes()[6] == 0,
{
}

} // verus!
