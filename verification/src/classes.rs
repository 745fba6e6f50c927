//! The class, transport-type and terminal-type tags of the audio-object
//! world: each a four-character code, with the fixed name tables that turn
//! a known tag into text.
use vstd::prelude::*;
use vstd::string::StringExecFns;

verus! {

/// The one well-known object handle: the root system object.
pub const SYSTEM_OBJECT_ID: u32 = 1;

/// Class tag `asys`, shown as "AudioSystemObject".
pub const CLASS_SYSTEM_OBJECT: u32 = 0x61737973;

/// Class tag `aagg`, shown as "AudioAggregateDevice".
pub const CLASS_AGGREGATE_DEVICE: u32 = 0x61616767;

/// Class tag `asub`, shown as "AudioSubDevice".
pub const CLASS_SUB_DEVICE: u32 = 0x61737562;

/// Class tag `stap`, shown as "AudioSubTap".
pub const CLASS_SUB_TAP: u32 = 0x73746170;

/// Class tag `clnt`, shown as "AudioProcess".
pub const CLASS_PROCESS: u32 = 0x636c6e74;

/// Class tag `tcls`, shown as "AudioTap".
pub const CLASS_TAP: u32 = 0x74636c73;

/// Class tag `****`, shown as "AudioObjectClassIDWildcard".
pub const CLASS_WILDCARD: u32 = 0x2a2a2a2a;

/// Class tag `aobj`, shown as "AudioObject".
pub const CLASS_OBJECT: u32 = 0x616f626a;

/// Class tag `aplg`, shown as "AudioPlugIn".
pub const CLASS_PLUG_IN: u32 = 0x61706c67;

/// Class tag `trpm`, shown as "AudioTransportManager".
pub const CLASS_TRANSPORT_MANAGER: u32 = 0x7472706d;

/// Class tag `abox`, shown as "AudioBox".
pub const CLASS_BOX: u32 = 0x61626f78;

/// Class tag `adev`, shown as "AudioDevice".
pub const CLASS_DEVICE: u32 = 0x61646576;

/// Class tag `aclk`, shown as "AudioClockDevice".
pub const CLASS_CLOCK_DEVICE: u32 = 0x61636c6b;

/// Class tag `edev`, shown as "AudioEndPointDevice".
pub const CLASS_END_POINT_DEVICE: u32 = 0x65646576;

/// Class tag `endp`, shown as "AudioEndPoint".
pub const CLASS_END_POINT: u32 = 0x656e6470;

/// Class tag `astr`, shown as "AudioStream".
pub const CLASS_STREAM: u32 = 0x61737472;

/// Class tag `actl`, shown as "AudioControl".
pub const CLASS_CONTROL: u32 = 0x6163746c;

/// Class tag `sldr`, shown as "AudioSliderControl".
pub const CLASS_SLIDER_CONTROL: u32 = 0x736c6472;

/// Class tag `levl`, shown as "AudioLevelControl".
pub const CLASS_LEVEL_CONTROL: u32 = 0x6c65766c;

/// Class tag `vlme`, shown as "AudioVolumeControl".
pub const CLASS_VOLUME_CONTROL: u32 = 0x766c6d65;

/// Class tag `subv`, shown as "AudioLFEVolumeControl".
pub const CLASS_LFE_VOLUME_CONTROL: u32 = 0x73756276;

/// Class tag `togl`, shown as "AudioBooleanControl".
pub const CLASS_BOOLEAN_CONTROL: u32 = 0x746f676c;

/// Class tag `mute`, shown as "AudioMuteControl".
pub const CLASS_MUTE_CONTROL: u32 = 0x6d757465;

/// Class tag `solo`, shown as "AudioSoloControl".
pub const CLASS_SOLO_CONTROL: u32 = 0x736f6c6f;

/// Class tag `jack`, shown as "AudioJackControl".
pub const CLASS_JACK_CONTROL: u32 = 0x6a61636b;

/// Class tag `subm`, shown as "AudioLFEMuteControl".
pub const CLASS_LFE_MUTE_CONTROL: u32 = 0x7375626d;

/// Class tag `phan`, shown as "AudioPhantomPowerControl".
pub const CLASS_PHANTOM_POWER_CONTROL: u32 = 0x7068616e;

/// Class tag `phsi`, shown as "AudioPhaseInvertControl".
pub const CLASS_PHASE_INVERT_CONTROL: u32 = 0x70687369;

/// Class tag `clip`, shown as "AudioClipLightControl".
pub const CLASS_CLIP_LIGHT_CONTROL: u32 = 0x636c6970;

/// Class tag `talb`, shown as "AudioTalkbackControl".
pub const CLASS_TALKBACK_CONTROL: u32 = 0x74616c62;

/// Class tag `lsnb`, shown as "AudioListenbackControl".
pub const CLASS_LISTENBACK_CONTROL: u32 = 0x6c736e62;

/// Class tag `slct`, shown as "AudioSelectorControl".
pub const CLASS_SELECTOR_CONTROL: u32 = 0x736c6374;

/// Class tag `dsrc`, shown as "AudioDataSourceControl".
pub const CLASS_DATA_SOURCE_CONTROL: u32 = 0x64737263;

/// Class tag `dest`, shown as "AudioDataDestinationControl".
pub const CLASS_DATA_DESTINATION_CONTROL: u32 = 0x64657374;

/// Class tag `clck`, shown as "AudioClockSourceControl".
pub const CLASS_CLOCK_SOURCE_CONTROL: u32 = 0x636c636b;

/// Class tag `nlvl`, shown as "AudioLineLevelControl".
pub const CLASS_LINE_LEVEL_CONTROL: u32 = 0x6e6c766c;

/// Class tag `hipf`, shown as "AudioHighPassFilterControl".
pub const CLASS_HIGH_PASS_FILTER_CONTROL: u32 = 0x68697066;

/// Class tag `span`, shown as "AudioStereoPanControl".
pub const CLASS_STEREO_PAN_CONTROL: u32 = 0x7370616e;

/// Class tag `atch`, shown as "AudioISubOwnerControl".
pub const CLASS_ISUB_OWNER_CONTROL: u32 = 0x61746368;

/// Class tag `pram`, shown as "AudioBootChimeVolumeControl".
pub const CLASS_BOOT_CHIME_VOLUME_CONTROL: u32 = 0x7072616d;

/// Transport-type tag `bltn`, shown as "BuiltIn".
pub const TRANSPORT_BUILT_IN: u32 = 0x626c746e;

/// Transport-type tag `grup`, shown as "Aggregate".
pub const TRANSPORT_AGGREGATE: u32 = 0x67727570;

/// Transport-type tag `virt`, shown as "Virtual".
pub const TRANSPORT_VIRTUAL: u32 = 0x76697274;

/// Transport-type tag `pci `, shown as "PCI".
pub const TRANSPORT_PCI: u32 = 0x70636920;

/// Transport-type tag `usb `, shown as "USB".
pub const TRANSPORT_USB: u32 = 0x75736220;

/// Transport-type tag `1394`, shown as "FireWire".
pub const TRANSPORT_FIRE_WIRE: u32 = 0x31333934;

/// Transport-type tag `blue`, shown as "Bluetooth".
pub const TRANSPORT_BLUETOOTH: u32 = 0x626c7565;

/// Transport-type tag `blea`, shown as "BluetoothLE".
pub const TRANSPORT_BLUETOOTH_LE: u32 = 0x626c6561;

/// Transport-type tag `hdmi`, shown as "HDMI".
pub const TRANSPORT_HDMI: u32 = 0x68646d69;

/// Transport-type tag `dprt`, shown as "DisplayPort".
pub const TRANSPORT_DISPLAY_PORT: u32 = 0x64707274;

/// Transport-type tag `airp`, shown as "AirPlay".
pub const TRANSPORT_AIR_PLAY: u32 = 0x61697270;

/// Transport-type tag `eavb`, shown as "AVB".
pub const TRANSPORT_AVB: u32 = 0x65617662;

/// Transport-type tag `thun`, shown as "Thunderbolt".
pub const TRANSPORT_THUNDERBOLT: u32 = 0x7468756e;

/// Transport-type tag `ccwd`, shown as "ContinuityCaptureWired".
pub const TRANSPORT_CONTINUITY_CAPTURE_WIRED: u32 = 0x63637764;

/// Transport-type tag `ccwl`, shown as "ContinuityCaptureWireless".
pub const TRANSPORT_CONTINUITY_CAPTURE_WIRELESS: u32 = 0x6363776c;

/// Transport-type tag `ccap`, shown as "ContinuityCapture".
pub const TRANSPORT_CONTINUITY_CAPTURE: u32 = 0x63636170;

/// Terminal-type tag `line`, shown as "Line".
pub const TERMINAL_LINE: u32 = 0x6c696e65;

/// Terminal-type tag `spdf`, shown as "DigitalAudioInterface".
pub const TERMINAL_DIGITAL_AUDIO_INTERFACE: u32 = 0x73706466;

/// Terminal-type tag `spkr`, shown as "Speaker".
pub const TERMINAL_SPEAKER: u32 = 0x73706b72;

/// Terminal-type tag `hdph`, shown as "Headphones".
pub const TERMINAL_HEADPHONES: u32 = 0x68647068;

/// Terminal-type tag `lfes`, shown as "LFESpeaker".
pub const TERMINAL_LFE_SPEAKER: u32 = 0x6c666573;

/// Terminal-type tag `rspk`, shown as "ReceiverSpeaker".
pub const TERMINAL_RECEIVER_SPEAKER: u32 = 0x7273706b;

/// Terminal-type tag `micr`, shown as "Microphone".
pub const TERMINAL_MICROPHONE: u32 = 0x6d696372;

/// Terminal-type tag `hmic`, shown as "HeadsetMicrophone".
pub const TERMINAL_HEADSET_MICROPHONE: u32 = 0x686d6963;

/// Terminal-type tag `rmic`, shown as "ReceiverMicrophone".
pub const TERMINAL_RECEIVER_MICROPHONE: u32 = 0x726d6963;

/// Terminal-type tag `tty_`, shown as "TTY".
pub const TERMINAL_TTY: u32 = 0x7474795f;

/// Terminal-type tag `hdmi`, shown as "HDMI".
pub const TERMINAL_HDMI: u32 = 0x68646d69;

/// Terminal-type tag `dprt`, shown as "DisplayPort".
pub const TERMINAL_DISPLAY_PORT: u32 = 0x64707274;

/// The table name of a known class tag.
pub open spec fn spec_class_name(c: u32) -> Option<Seq<char>> {
    if c == CLASS_SYSTEM_OBJECT {
        Some("AudioSystemObject"@)
    } else if c == CLASS_AGGREGATE_DEVICE {
        Some("AudioAggregateDevice"@)
    } else if c == CLASS_SUB_DEVICE {
        Some("AudioSubDevice"@)
    } else if c == CLASS_SUB_TAP {
        Some("AudioSubTap"@)
    } else if c == CLASS_PROCESS {
        Some("AudioProcess"@)
    } else if c == CLASS_TAP {
        Some("AudioTap"@)
    } else if c == CLASS_WILDCARD {
        Some("AudioObjectClassIDWildcard"@)
    } else if c == CLASS_OBJECT {
        Some("AudioObject"@)
    } else if c == CLASS_PLUG_IN {
        Some("AudioPlugIn"@)
    } else if c == CLASS_TRANSPORT_MANAGER {
        Some("AudioTransportManager"@)
    } else if c == CLASS_BOX {
        Some("AudioBox"@)
    } else if c == CLASS_DEVICE {
        Some("AudioDevice"@)
    } else if c == CLASS_CLOCK_DEVICE {
        Some("AudioClockDevice"@)
    } else if c == CLASS_END_POINT_DEVICE {
        Some("AudioEndPointDevice"@)
    } else if c == CLASS_END_POINT {
        Some("AudioEndPoint"@)
    } else if c == CLASS_STREAM {
        Some("AudioStream"@)
    } else if c == CLASS_CONTROL {
        Some("AudioControl"@)
    } else if c == CLASS_SLIDER_CONTROL {
        Some("AudioSliderControl"@)
    } else if c == CLASS_LEVEL_CONTROL {
        Some("AudioLevelControl"@)
    } else if c == CLASS_VOLUME_CONTROL {
        Some("AudioVolumeControl"@)
    } else if c == CLASS_LFE_VOLUME_CONTROL {
        Some("AudioLFEVolumeControl"@)
    } else if c == CLASS_BOOLEAN_CONTROL {
        Some("AudioBooleanControl"@)
    } else if c == CLASS_MUTE_CONTROL {
        Some("AudioMuteControl"@)
    } else if c == CLASS_SOLO_CONTROL {
        Some("AudioSoloControl"@)
    } else if c == CLASS_JACK_CONTROL {
        Some("AudioJackControl"@)
    } else if c == CLASS_LFE_MUTE_CONTROL {
        Some("AudioLFEMuteControl"@)
    } else if c == CLASS_PHANTOM_POWER_CONTROL {
        Some("AudioPhantomPowerControl"@)
    } else if c == CLASS_PHASE_INVERT_CONTROL {
        Some("AudioPhaseInvertControl"@)
    } else if c == CLASS_CLIP_LIGHT_CONTROL {
        Some("AudioClipLightControl"@)
    } else if c == CLASS_TALKBACK_CONTROL {
        Some("AudioTalkbackControl"@)
    } else if c == CLASS_LISTENBACK_CONTROL {
        Some("AudioListenbackControl"@)
    } else if c == CLASS_SELECTOR_CONTROL {
        Some("AudioSelectorControl"@)
    } else if c == CLASS_DATA_SOURCE_CONTROL {
        Some("AudioDataSourceControl"@)
    } else if c == CLASS_DATA_DESTINATION_CONTROL {
        Some("AudioDataDestinationControl"@)
    } else if c == CLASS_CLOCK_SOURCE_CONTROL {
        Some("AudioClockSourceControl"@)
    } else if c == CLASS_LINE_LEVEL_CONTROL {
        Some("AudioLineLevelControl"@)
    } else if c == CLASS_HIGH_PASS_FILTER_CONTROL {
        Some("AudioHighPassFilterControl"@)
    } else if c == CLASS_STEREO_PAN_CONTROL {
        Some("AudioStereoPanControl"@)
    } else if c == CLASS_ISUB_OWNER_CONTROL {
        Some("AudioISubOwnerControl"@)
    } else if c == CLASS_BOOT_CHIME_VOLUME_CONTROL {
        Some("AudioBootChimeVolumeControl"@)
    } else {
        None
    }
}

/// The table name of a known class tag, `None` for an unknown one.
pub fn class_to_str(c: u32) -> (r: Option<&'static str>)
    ensures
        (match r {
            Some(s) => spec_class_name(c) == Some(s@),
            None => spec_class_name(c) is None,
        }),
{
    if c == CLASS_SYSTEM_OBJECT {
        Some("AudioSystemObject")
    } else if c == CLASS_AGGREGATE_DEVICE {
        Some("AudioAggregateDevice")
    } else if c == CLASS_SUB_DEVICE {
        Some("AudioSubDevice")
    } else if c == CLASS_SUB_TAP {
        Some("AudioSubTap")
    } else if c == CLASS_PROCESS {
        Some("AudioProcess")
    } else if c == CLASS_TAP {
        Some("AudioTap")
    } else if c == CLASS_WILDCARD {
        Some("AudioObjectClassIDWildcard")
    } else if c == CLASS_OBJECT {
        Some("AudioObject")
    } else if c == CLASS_PLUG_IN {
        Some("AudioPlugIn")
    } else if c == CLASS_TRANSPORT_MANAGER {
        Some("AudioTransportManager")
    } else if c == CLASS_BOX {
        Some("AudioBox")
    } else if c == CLASS_DEVICE {
        Some("AudioDevice")
    } else if c == CLASS_CLOCK_DEVICE {
        Some("AudioClockDevice")
    } else if c == CLASS_END_POINT_DEVICE {
        Some("AudioEndPointDevice")
    } else if c == CLASS_END_POINT {
        Some("AudioEndPoint")
    } else if c == CLASS_STREAM {
        Some("AudioStream")
    } else if c == CLASS_CONTROL {
        Some("AudioControl")
    } else if c == CLASS_SLIDER_CONTROL {
        Some("AudioSliderControl")
    } else if c == CLASS_LEVEL_CONTROL {
        Some("AudioLevelControl")
    } else if c == CLASS_VOLUME_CONTROL {
        Some("AudioVolumeControl")
    } else if c == CLASS_LFE_VOLUME_CONTROL {
        Some("AudioLFEVolumeControl")
    } else if c == CLASS_BOOLEAN_CONTROL {
        Some("AudioBooleanControl")
    } else if c == CLASS_MUTE_CONTROL {
        Some("AudioMuteControl")
    } else if c == CLASS_SOLO_CONTROL {
        Some("AudioSoloControl")
    } else if c == CLASS_JACK_CONTROL {
        Some("AudioJackControl")
    } else if c == CLASS_LFE_MUTE_CONTROL {
        Some("AudioLFEMuteControl")
    } else if c == CLASS_PHANTOM_POWER_CONTROL {
        Some("AudioPhantomPowerControl")
    } else if c == CLASS_PHASE_INVERT_CONTROL {
        Some("AudioPhaseInvertControl")
    } else if c == CLASS_CLIP_LIGHT_CONTROL {
        Some("AudioClipLightControl")
    } else if c == CLASS_TALKBACK_CONTROL {
        Some("AudioTalkbackControl")
    } else if c == CLASS_LISTENBACK_CONTROL {
        Some("AudioListenbackControl")
    } else if c == CLASS_SELECTOR_CONTROL {
        Some("AudioSelectorControl")
    } else if c == CLASS_DATA_SOURCE_CONTROL {
        Some("AudioDataSourceControl")
    } else if c == CLASS_DATA_DESTINATION_CONTROL {
        Some("AudioDataDestinationControl")
    } else if c == CLASS_CLOCK_SOURCE_CONTROL {
        Some("AudioClockSourceControl")
    } else if c == CLASS_LINE_LEVEL_CONTROL {
        Some("AudioLineLevelControl")
    } else if c == CLASS_HIGH_PASS_FILTER_CONTROL {
        Some("AudioHighPassFilterControl")
    } else if c == CLASS_STEREO_PAN_CONTROL {
        Some("AudioStereoPanControl")
    } else if c == CLASS_ISUB_OWNER_CONTROL {
        Some("AudioISubOwnerControl")
    } else if c == CLASS_BOOT_CHIME_VOLUME_CONTROL {
        Some("AudioBootChimeVolumeControl")
    } else {
        None
    }
}

/// The table name of a transport type; an unexpected value has a fixed
/// fallback name.
pub open spec fn spec_transport_name(t: u32) -> Seq<char> {
    if t == 0 {
        "Unknown"@
    } else if t == TRANSPORT_BUILT_IN {
        "BuiltIn"@
    } else if t == TRANSPORT_AGGREGATE {
        "Aggregate"@
    } else if t == TRANSPORT_VIRTUAL {
        "Virtual"@
    } else if t == TRANSPORT_PCI {
        "PCI"@
    } else if t == TRANSPORT_USB {
        "USB"@
    } else if t == TRANSPORT_FIRE_WIRE {
        "FireWire"@
    } else if t == TRANSPORT_BLUETOOTH {
        "Bluetooth"@
    } else if t == TRANSPORT_BLUETOOTH_LE {
        "BluetoothLE"@
    } else if t == TRANSPORT_HDMI {
        "HDMI"@
    } else if t == TRANSPORT_DISPLAY_PORT {
        "DisplayPort"@
    } else if t == TRANSPORT_AIR_PLAY {
        "AirPlay"@
    } else if t == TRANSPORT_AVB {
        "AVB"@
    } else if t == TRANSPORT_THUNDERBOLT {
        "Thunderbolt"@
    } else if t == TRANSPORT_CONTINUITY_CAPTURE_WIRED {
        "ContinuityCaptureWired"@
    } else if t == TRANSPORT_CONTINUITY_CAPTURE_WIRELESS {
        "ContinuityCaptureWireless"@
    } else if t == TRANSPORT_CONTINUITY_CAPTURE {
        "ContinuityCapture"@
    } else {
        "Unexpected TransportType"@
    }
}

/// The name of a transport type, "Unexpected TransportType" for an
/// unknown value.
pub fn transporttype_to_str(t: u32) -> (r: &'static str)
    ensures
        r@ == spec_transport_name(t),
{
    if t == 0 {
        "Unknown"
    } else if t == TRANSPORT_BUILT_IN {
        "BuiltIn"
    } else if t == TRANSPORT_AGGREGATE {
        "Aggregate"
    } else if t == TRANSPORT_VIRTUAL {
        "Virtual"
    } else if t == TRANSPORT_PCI {
        "PCI"
    } else if t == TRANSPORT_USB {
        "USB"
    } else if t == TRANSPORT_FIRE_WIRE {
        "FireWire"
    } else if t == TRANSPORT_BLUETOOTH {
        "Bluetooth"
    } else if t == TRANSPORT_BLUETOOTH_LE {
        "BluetoothLE"
    } else if t == TRANSPORT_HDMI {
        "HDMI"
    } else if t == TRANSPORT_DISPLAY_PORT {
        "DisplayPort"
    } else if t == TRANSPORT_AIR_PLAY {
        "AirPlay"
    } else if t == TRANSPORT_AVB {
        "AVB"
    } else if t == TRANSPORT_THUNDERBOLT {
        "Thunderbolt"
    } else if t == TRANSPORT_CONTINUITY_CAPTURE_WIRED {
        "ContinuityCaptureWired"
    } else if t == TRANSPORT_CONTINUITY_CAPTURE_WIRELESS {
        "ContinuityCaptureWireless"
    } else if t == TRANSPORT_CONTINUITY_CAPTURE {
        "ContinuityCapture"
    } else {
        "Unexpected TransportType"
    }
}

/// The table name of a terminal type; an unknown value is shown as its
/// zero-padded hexadecimal tag.
pub open spec fn spec_terminal_name(t: u32) -> Seq<char> {
    if t == 0 {
        "Unknown"@
    } else if t == TERMINAL_LINE {
        "Line"@
    } else if t == TERMINAL_DIGITAL_AUDIO_INTERFACE {
        "DigitalAudioInterface"@
    } else if t == TERMINAL_SPEAKER {
        "Speaker"@
    } else if t == TERMINAL_HEADPHONES {
        "Headphones"@
    } else if t == TERMINAL_LFE_SPEAKER {
        "LFESpeaker"@
    } else if t == TERMINAL_RECEIVER_SPEAKER {
        "ReceiverSpeaker"@
    } else if t == TERMINAL_MICROPHONE {
        "Microphone"@
    } else if t == TERMINAL_HEADSET_MICROPHONE {
        "HeadsetMicrophone"@
    } else if t == TERMINAL_RECEIVER_MICROPHONE {
        "ReceiverMicrophone"@
    } else if t == TERMINAL_TTY {
        "TTY"@
    } else if t == TERMINAL_HDMI {
        "HDMI"@
    } else if t == TERMINAL_DISPLAY_PORT {
        "DisplayPort"@
    } else {
        crate::render::spec_hex_tag(t as nat)
    }
}

/// The name of a terminal type; an unknown value is rendered as its
/// hexadecimal tag.
pub fn terminaltype_to_str(t: u32) -> (r: String)
    ensures
        r@ == spec_terminal_name(t),
{
    if t == 0 {
        String::from_str("Unknown")
    } else if t == TERMINAL_LINE {
        String::from_str("Line")
    } else if t == TERMINAL_DIGITAL_AUDIO_INTERFACE {
        String::from_str("DigitalAudioInterface")
    } else if t == TERMINAL_SPEAKER {
        String::from_str("Speaker")
    } else if t == TERMINAL_HEADPHONES {
        String::from_str("Headphones")
    } else if t == TERMINAL_LFE_SPEAKER {
        String::from_str("LFESpeaker")
    } else if t == TERMINAL_RECEIVER_SPEAKER {
        String::from_str("ReceiverSpeaker")
    } else if t == TERMINAL_MICROPHONE {
        String::from_str("Microphone")
    } else if t == TERMINAL_HEADSET_MICROPHONE {
        String::from_str("HeadsetMicrophone")
    } else if t == TERMINAL_RECEIVER_MICROPHONE {
        String::from_str("ReceiverMicrophone")
    } else if t == TERMINAL_TTY {
        String::from_str("TTY")
    } else if t == TERMINAL_HDMI {
        String::from_str("HDMI")
    } else if t == TERMINAL_DISPLAY_PORT {
        String::from_str("DisplayPort")
    } else {
        let mut s = String::new();
        crate::render::append_hex_tag(&mut s, t);
        proof {
            assert(s@ =~= spec_terminal_name(t));
        }
        s
    }
}

} // verus!
