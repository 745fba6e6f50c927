//! The property selectors this tool reads: each a four-character code
//! identifying one property of an audio object.
use vstd::prelude::*;

verus! {

/// Selector `bcls`: the object's base class tag.
pub const SEL_BASE_CLASS: u32 = 0x62636c73;

/// Selector `clas`: the object's exact class tag.
pub const SEL_CLASS: u32 = 0x636c6173;

/// Selector `stdv`: the owning object.
pub const SEL_OWNER: u32 = 0x73746476;

/// Selector `lnam`: the object's name.
pub const SEL_NAME: u32 = 0x6c6e616d;

/// Selector `lmod`: the object's model name.
pub const SEL_MODEL_NAME: u32 = 0x6c6d6f64;

/// Selector `lmak`: the object's manufacturer.
pub const SEL_MANUFACTURER: u32 = 0x6c6d616b;

/// Selector `lchn`: the addressed element's name.
pub const SEL_ELEMENT_NAME: u32 = 0x6c63686e;

/// Selector `lcnn`: the addressed element's number name.
pub const SEL_ELEMENT_NUMBER_NAME: u32 = 0x6c636e6e;

/// Selector `ownd`: the list of owned child objects.
pub const SEL_OWNED_OBJECTS: u32 = 0x6f776e64;

/// Selector `ctrl`: the list of control objects.
pub const SEL_CONTROL_LIST: u32 = 0x6374726c;

/// Selector `capp`: the device's configuration application.
pub const SEL_DEV_CONFIGURATION_APPLICATION: u32 = 0x63617070;

/// Selector `uid `: the device's unique identifier.
pub const SEL_DEV_DEVICE_UID: u32 = 0x75696420;

/// Selector `muid`: the device's model identifier.
pub const SEL_DEV_MODEL_UID: u32 = 0x6d756964;

/// Selector `tran`: the device's transport type.
pub const SEL_DEV_TRANSPORT_TYPE: u32 = 0x7472616e;

/// Selector `akin`: the related devices.
pub const SEL_DEV_RELATED_DEVICES: u32 = 0x616b696e;

/// Selector `clkd`: the device's clock domain.
pub const SEL_DEV_CLOCK_DOMAIN: u32 = 0x636c6b64;

/// Selector `apcd`: the device's clock device.
pub const SEL_DEV_CLOCK_DEVICE: u32 = 0x61706364;

/// Selector `livn`: whether the device is alive.
pub const SEL_DEV_IS_ALIVE: u32 = 0x6c69766e;

/// Selector `goin`: whether the device is running.
pub const SEL_DEV_IS_RUNNING: u32 = 0x676f696e;

/// Selector `gone`: whether the device runs in any process.
pub const SEL_DEV_IS_RUNNING_SOMEWHERE: u32 = 0x676f6e65;

/// Selector `dflt`: default-device eligibility.
pub const SEL_DEV_CAN_BE_DEFAULT_DEVICE: u32 = 0x64666c74;

/// Selector `sflt`: default-system-device eligibility.
pub const SEL_DEV_CAN_BE_DEFAULT_SYSTEM_DEVICE: u32 = 0x73666c74;

/// Selector `ltnc`: the presentation latency.
pub const SEL_DEV_LATENCY: u32 = 0x6c746e63;

/// Selector `stm#`: the stream list.
pub const SEL_DEV_STREAMS: u32 = 0x73746d23;

/// Selector `saft`: the safety offset.
pub const SEL_DEV_SAFETY_OFFSET: u32 = 0x73616674;

/// Selector `oink`: the hog-mode owning process.
pub const SEL_DEV_HOG_MODE: u32 = 0x6f696e6b;

/// Selector `fsiz`: the I/O buffer frame size.
pub const SEL_DEV_BUFFER_FRAME_SIZE: u32 = 0x6673697a;

/// Selector `fsz#`: the allowed buffer frame sizes.
pub const SEL_DEV_BUFFER_FRAME_SIZE_RANGE: u32 = 0x66737a23;

/// Selector `vfsz`: variable buffer sizing.
pub const SEL_DEV_USES_VARIABLE_BUFFER_FRAME_SIZES: u32 = 0x7666737a;

/// Selector `ncyc`: the I/O cycle usage fraction.
pub const SEL_DEV_IO_CYCLE_USAGE: u32 = 0x6e637963;

/// Selector `asrt`: the measured sample rate.
pub const SEL_DEV_ACTUAL_SAMPLE_RATE: u32 = 0x61737274;

/// Selector `nsrt`: the nominal sample rate.
pub const SEL_DEV_NOMINAL_SAMPLE_RATE: u32 = 0x6e737274;

/// Selector `nsr#`: the available nominal sample-rate ranges.
pub const SEL_DEV_AVAILABLE_NOMINAL_SAMPLE_RATES: u32 = 0x6e737223;

/// Selector `dch2`: the preferred stereo channel pair.
pub const SEL_DEV_PREFERRED_CHANNELS_FOR_STEREO: u32 = 0x64636832;

/// Selector `srnd`: the preferred channel layout.
pub const SEL_DEV_PREFERRED_CHANNEL_LAYOUT: u32 = 0x73726e64;

/// Selector `appm`: the per-process mute state.
pub const SEL_DEV_PROCESS_MUTE: u32 = 0x6170706d;

/// Selector `agrp`: the aggregate's active sub-devices.
pub const SEL_AGG_ACTIVE_SUB_DEVICE_LIST: u32 = 0x61677270;

/// Selector `tap#`: the aggregate's taps.
pub const SEL_AGG_TAP_LIST: u32 = 0x74617023;

/// Selector `atap`: the aggregate's sub-taps.
pub const SEL_AGG_SUB_TAP_LIST: u32 = 0x61746170;

/// Selector `sact`: whether the stream is active.
pub const SEL_STREAM_IS_ACTIVE: u32 = 0x73616374;

/// Selector `sdir`: the stream's direction.
pub const SEL_STREAM_DIRECTION: u32 = 0x73646972;

/// Selector `term`: the stream's terminal type.
pub const SEL_STREAM_TERMINAL_TYPE: u32 = 0x7465726d;

/// Selector `schn`: the stream's starting channel.
pub const SEL_STREAM_STARTING_CHANNEL: u32 = 0x7363686e;

/// Selector `sfmt`: the current virtual format.
pub const SEL_STREAM_VIRTUAL_FORMAT: u32 = 0x73666d74;

/// Selector `sfma`: the available virtual formats.
pub const SEL_STREAM_AVAILABLE_VIRTUAL_FORMATS: u32 = 0x73666d61;

/// Selector `pft `: the current physical format.
pub const SEL_STREAM_PHYSICAL_FORMAT: u32 = 0x70667420;

/// Selector `pfta`: the available physical formats.
pub const SEL_STREAM_AVAILABLE_PHYSICAL_FORMATS: u32 = 0x70667461;

/// Selector `ppid`: the process's identifier.
pub const SEL_PROC_PID: u32 = 0x70706964;

/// Selector `pbid`: the process's bundle identifier.
pub const SEL_PROC_BUNDLE_ID: u32 = 0x70626964;

/// Selector `pdv#`: the devices the process uses.
pub const SEL_PROC_DEVICES: u32 = 0x70647623;

/// Selector `pir?`: whether the process does I/O.
pub const SEL_PROC_IS_RUNNING: u32 = 0x7069723f;

/// Selector `piri`: whether the process does input.
pub const SEL_PROC_IS_RUNNING_INPUT: u32 = 0x70697269;

/// Selector `piro`: whether the process does output.
pub const SEL_PROC_IS_RUNNING_OUTPUT: u32 = 0x7069726f;

/// Selector `dev#`: the full device list.
pub const SEL_HW_DEVICES: u32 = 0x64657623;

/// Selector `dIn `: the default input device.
pub const SEL_HW_DEFAULT_INPUT_DEVICE: u32 = 0x64496e20;

/// Selector `dOut`: the default output device.
pub const SEL_HW_DEFAULT_OUTPUT_DEVICE: u32 = 0x644f7574;

/// Selector `sOut`: the default system-output device.
pub const SEL_HW_DEFAULT_SYSTEM_OUTPUT_DEVICE: u32 = 0x734f7574;

/// Selector `stmo`: the stereo-to-mono mixdown flag.
pub const SEL_HW_MIX_STEREO_TO_MONO: u32 = 0x73746d6f;

/// Selector `plg#`: the plug-in list.
pub const SEL_HW_PLUG_IN_LIST: u32 = 0x706c6723;

/// Selector `tmg#`: the transport-manager list.
pub const SEL_HW_TRANSPORT_MANAGER_LIST: u32 = 0x746d6723;

/// Selector `box#`: the box list.
pub const SEL_HW_BOX_LIST: u32 = 0x626f7823;

/// Selector `clk#`: the clock-device list.
pub const SEL_HW_CLOCK_DEVICE_LIST: u32 = 0x636c6b23;

/// Selector `main`: whether this is the main process.
pub const SEL_HW_PROCESS_IS_MAIN: u32 = 0x6d61696e;

/// Selector `inot`: whether the service is starting or stopping.
pub const SEL_HW_IS_INITING_OR_EXITING: u32 = 0x696e6f74;

/// Selector `pmin`: the process input-mute flag.
pub const SEL_HW_PROCESS_INPUT_MUTE: u32 = 0x706d696e;

/// Selector `pmut`: the process is-audible flag.
pub const SEL_HW_PROCESS_IS_AUDIBLE: u32 = 0x706d7574;

/// Selector `slep`: whether sleeping is allowed.
pub const SEL_HW_SLEEPING_IS_ALLOWED: u32 = 0x736c6570;

/// Selector `unld`: whether unloading is allowed.
pub const SEL_HW_UNLOADING_IS_ALLOWED: u32 = 0x756e6c64;

/// Selector `hogr`: whether hog mode is allowed.
pub const SEL_HW_HOG_MODE_IS_ALLOWED: u32 = 0x686f6772;

/// Selector `user`: the user-session state.
pub const SEL_HW_USER_SESSION_IS_ACTIVE_OR_HEADLESS: u32 = 0x75736572;

/// Selector `powh`: the power hint.
pub const SEL_HW_POWER_HINT: u32 = 0x706f7768;

/// Selector `prs#`: the process-object list.
pub const SEL_HW_PROCESS_OBJECT_LIST: u32 = 0x70727323;

/// Selector `tps#`: the tap list.
pub const SEL_HW_TAP_LIST: u32 = 0x74707323;

} // verus!
