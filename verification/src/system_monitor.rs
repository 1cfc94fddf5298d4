//! System data for widgets: what is asked for, and what a reading is made of.

use vstd::prelude::*;

use crate::platform_text;
use crate::platform_text::utf16_lossy;
use crate::text;
use crate::text::{same_text, trim_end, Trim};
use crate::window_layer::class_name;
use crate::window_layer::desktop::Rect;

verus! {

pub const MASK_CPU: u32 = 1 << 0;

pub const MASK_MEMORY: u32 = 1 << 1;

pub const MASK_BATTERY: u32 = 1 << 2;

pub const MASK_DISK: u32 = 1 << 3;

pub const MASK_NETWORK: u32 = 1 << 4;

pub const MASK_MEDIA: u32 = 1 << 5;

pub const MASK_GPU: u32 = 1 << 6;

pub const MASK_DISPLAY: u32 = 1 << 7;

pub const MASK_AUDIO: u32 = 1 << 8;

pub const MASK_UPTIME: u32 = 1 << 9;

/// The bit of a category, 0 for a name that is none.
pub open spec fn category_mask(name: Seq<char>) -> u32 {
    if name == "cpu"@ {
        MASK_CPU
    } else if name == "memory"@ {
        MASK_MEMORY
    } else if name == "battery"@ {
        MASK_BATTERY
    } else if name == "disk"@ {
        MASK_DISK
    } else if name == "network"@ {
        MASK_NETWORK
    } else if name == "media"@ {
        MASK_MEDIA
    } else if name == "gpu"@ {
        MASK_GPU
    } else if name == "display"@ {
        MASK_DISPLAY
    } else if name == "audio"@ {
        MASK_AUDIO
    } else if name == "uptime"@ {
        MASK_UPTIME
    } else {
        0
    }
}

/// The bits of several categories together.
pub open spec fn categories_mask(names: Seq<Seq<char>>) -> u32
    decreases names.len(),
{
    if names.len() == 0 {
        0
    } else {
        categories_mask(names.drop_last()) | category_mask(names.last())
    }
}

fn mask_of(name: &str) -> (r: u32)
    ensures
        r == category_mask(name@),
{
    if same_text(name, "cpu") {
        MASK_CPU
    } else if same_text(name, "memory") {
        MASK_MEMORY
    } else if same_text(name, "battery") {
        MASK_BATTERY
    } else if same_text(name, "disk") {
        MASK_DISK
    } else if same_text(name, "network") {
        MASK_NETWORK
    } else if same_text(name, "media") {
        MASK_MEDIA
    } else if same_text(name, "gpu") {
        MASK_GPU
    } else if same_text(name, "display") {
        MASK_DISPLAY
    } else if same_text(name, "audio") {
        MASK_AUDIO
    } else if same_text(name, "uptime") {
        MASK_UPTIME
    } else {
        0
    }
}

/// Turns category names into a bit mask. A name that is none contributes nothing.
pub fn parse_categories(categories: &[String]) -> (r: u32)
    ensures
        r == categories_mask(text::string_views(categories@)),
{
    let ghost names = text::string_views(categories@);
    let mut mask: u32 = 0;
    let mut i: usize = 0;
    while i < categories.len()
        invariant
            i <= categories@.len(),
            names == text::string_views(categories@),
            mask == categories_mask(names.take(i as int)),
        decreases categories@.len() - i,
    {
        assert(names.take(i + 1).drop_last() =~= names.take(i as int));
        assert(names.take(i + 1).last() == categories@[i as int]@);
        mask = mask | mask_of(categories[i].as_str());
        i += 1;
    }
    assert(names.take(i as int) =~= names);
    mask
}

/// One reading of the system: what was asked for and could be had. `F` is the number type of
/// shares and percentages, `M` the description of what is playing.
#[derive(Debug)]
pub struct SystemData<F, M> {
    pub cpu: Option<CpuInfo<F>>,
    pub memory: Option<MemoryInfo>,
    pub battery: Option<BatteryInfo<F>>,
    pub disk: Option<Vec<DiskInfo>>,
    pub network: Option<Vec<NetworkInfo>>,
    pub media: Option<M>,
    pub gpu: Option<GpuInfo<F>>,
    pub display: Option<Vec<DisplayInfo<F>>>,
    pub audio: Option<AudioInfo<F>>,
    /// Seconds since the system was started.
    pub uptime: Option<u64>,
}

#[derive(Debug)]
pub struct CpuInfo<F> {
    pub cores: u32,
    /// Usage in percent, over all cores.
    pub usage: F,
    pub model: String,
}

/// Sizes in bytes.
#[derive(Debug)]
pub struct MemoryInfo {
    pub total: u64,
    pub used: u64,
    pub free: u64,
}

#[derive(Debug)]
pub struct BatteryInfo<F> {
    /// From 0 to 1.
    pub level: F,
    pub charging: bool,
    /// From 0 to 1, if it is known.
    pub health: Option<F>,
    /// Seconds until it is empty, if they are known.
    pub time_to_empty: Option<u64>,
}

/// Sizes in bytes.
#[derive(Debug)]
pub struct DiskInfo {
    pub name: String,
    pub total: u64,
    pub available: u64,
    /// File system, such as `NTFS`.
    pub fs: String,
}

/// Bytes since the system was started.
#[derive(Debug)]
pub struct NetworkInfo {
    pub name: String,
    pub received: u64,
    pub transmitted: u64,
}

#[derive(Debug)]
pub struct GpuInfo<F> {
    pub name: String,
    /// Memory in bytes.
    pub vram: Option<u64>,
    /// Usage in percent.
    pub usage: Option<F>,
}

#[derive(Debug)]
pub struct DisplayInfo<F> {
    pub name: String,
    /// In pixels.
    pub width: u32,
    /// In pixels.
    pub height: u32,
    /// In Hertz.
    pub refresh_rate: Option<u32>,
    /// Size of a point in pixels.
    pub scale_factor: Option<F>,
    pub primary: bool,
}

#[derive(Debug)]
pub struct AudioInfo<F> {
    /// From 0 to 1.
    pub volume: F,
    pub muted: bool,
    pub output_device: Option<String>,
}

/// Which readings a mask asks for.
#[derive(Clone, Copy, PartialEq, Eq, Debug, Structural)]
pub struct Wanted {
    pub cpu: bool,
    pub memory: bool,
    pub battery: bool,
    pub disk: bool,
    pub network: bool,
    pub media: bool,
    pub gpu: bool,
    pub display: bool,
    pub audio: bool,
    pub uptime: bool,
}

/// Which readings a mask asks for.
pub open spec fn wanted_by(mask: u32) -> Wanted {
    Wanted {
        cpu: mask & MASK_CPU != 0,
        memory: mask & MASK_MEMORY != 0,
        battery: mask & MASK_BATTERY != 0,
        disk: mask & MASK_DISK != 0,
        network: mask & MASK_NETWORK != 0,
        media: mask & MASK_MEDIA != 0,
        gpu: mask & MASK_GPU != 0,
        display: mask & MASK_DISPLAY != 0,
        audio: mask & MASK_AUDIO != 0,
        uptime: mask & MASK_UPTIME != 0,
    }
}

/// Finds out which readings have to be taken. For the processor that means two, a moment apart:
/// its usage is measured between them.
pub fn collect_system_data(mask: u32) -> (r: Wanted)
    ensures
        r == wanted_by(mask),
        r.cpu <==> (mask / 1) % 2 == 1,
        r.memory <==> (mask / 2) % 2 == 1,
        r.battery <==> (mask / 4) % 2 == 1,
        r.disk <==> (mask / 8) % 2 == 1,
        r.network <==> (mask / 16) % 2 == 1,
        r.media <==> (mask / 32) % 2 == 1,
        r.gpu <==> (mask / 64) % 2 == 1,
        r.display <==> (mask / 128) % 2 == 1,
        r.audio <==> (mask / 256) % 2 == 1,
        r.uptime <==> (mask / 512) % 2 == 1,
{
    proof {
        lemma_bits_of_a_mask(mask);
    }
    Wanted {
        cpu: mask & MASK_CPU != 0,
        memory: mask & MASK_MEMORY != 0,
        battery: mask & MASK_BATTERY != 0,
        disk: mask & MASK_DISK != 0,
        network: mask & MASK_NETWORK != 0,
        media: mask & MASK_MEDIA != 0,
        gpu: mask & MASK_GPU != 0,
        display: mask & MASK_DISPLAY != 0,
        audio: mask & MASK_AUDIO != 0,
        uptime: mask & MASK_UPTIME != 0,
    }
}

/// What the processor said of itself: the model of each core, and the usage over all of them.
#[derive(Debug)]
pub struct CpuReading<F> {
    pub brands: Vec<String>,
    pub usage: F,
}

/// The readings that were taken and that succeeded.
#[derive(Debug)]
pub struct Readings<F, M> {
    pub cpu: Option<CpuReading<F>>,
    pub memory: Option<MemoryInfo>,
    pub battery: Option<BatteryInfo<F>>,
    pub disk: Option<Vec<DiskInfo>>,
    pub network: Option<Vec<NetworkInfo>>,
    pub media: Option<M>,
    pub gpu: Option<GpuInfo<F>>,
    pub display: Option<Vec<DisplayInfo<F>>>,
    pub audio: Option<AudioInfo<F>>,
    pub uptime: Option<u64>,
}

/// A reading, if it was asked for.
pub open spec fn asked_for<T>(wanted: bool, reading: Option<T>) -> Option<T> {
    if wanted {
        reading
    } else {
        None
    }
}

fn only_if<T>(wanted: bool, reading: Option<T>) -> (r: Option<T>)
    ensures
        r == asked_for(wanted, reading),
{
    if wanted {
        reading
    } else {
        None
    }
}

/// The model of the first core, empty where there is none.
pub open spec fn model_of(brands: Seq<String>) -> Seq<char> {
    if brands.len() == 0 {
        Seq::empty()
    } else {
        brands[0]@
    }
}

/// Summarises the cores of the processor.
pub fn cpu_info<F>(reading: CpuReading<F>) -> (r: CpuInfo<F>)
    ensures
        r.cores == reading.brands@.len() % 0x1_0000_0000,
        r.usage == reading.usage,
        r.model@ == model_of(reading.brands@),
{
    let model: String = if reading.brands.len() == 0 {
        String::new()
    } else {
        reading.brands[0].clone()
    };
    let cores: u64 = reading.brands.len() as u64 % 0x1_0000_0000;
    CpuInfo { cores: cores as u32, usage: reading.usage, model }
}

/// Puts together what was asked for and could be had.
pub fn collect_with_system<F, M>(mask: u32, readings: Readings<F, M>) -> (r: SystemData<F, M>)
    ensures
        match asked_for(wanted_by(mask).cpu, readings.cpu) {
            Some(reading) => r.cpu matches Some(info) && {
                &&& info.cores == reading.brands@.len() % 0x1_0000_0000
                &&& info.usage == reading.usage
                &&& info.model@ == model_of(reading.brands@)
            },
            None => r.cpu is None,
        },
        r.memory == asked_for(wanted_by(mask).memory, readings.memory),
        r.battery == asked_for(wanted_by(mask).battery, readings.battery),
        r.disk == asked_for(wanted_by(mask).disk, readings.disk),
        r.network == asked_for(wanted_by(mask).network, readings.network),
        r.media == asked_for(wanted_by(mask).media, readings.media),
        r.gpu == asked_for(wanted_by(mask).gpu, readings.gpu),
        r.display == asked_for(wanted_by(mask).display, readings.display),
        r.audio == asked_for(wanted_by(mask).audio, readings.audio),
        r.uptime == asked_for(wanted_by(mask).uptime, readings.uptime),
        r.cpu is Some <==> mask % 2 == 1 && readings.cpu is Some,
        r.cpu matches Some(info) ==> {
            &&& info.cores == readings.cpu->0.brands@.len() % 0x1_0000_0000
            &&& info.usage == readings.cpu->0.usage
            &&& readings.cpu->0.brands@.len() == 0 ==> info.model@.len() == 0
            &&& readings.cpu->0.brands@.len() > 0 ==> info.model@ == readings.cpu->0.brands@[0]@
        },
        (mask / 2) % 2 == 1 ==> r.memory == readings.memory,
        (mask / 2) % 2 == 0 ==> r.memory is None,
        (mask / 4) % 2 == 1 ==> r.battery == readings.battery,
        (mask / 4) % 2 == 0 ==> r.battery is None,
        (mask / 8) % 2 == 1 ==> r.disk == readings.disk,
        (mask / 8) % 2 == 0 ==> r.disk is None,
        (mask / 16) % 2 == 1 ==> r.network == readings.network,
        (mask / 16) % 2 == 0 ==> r.network is None,
        (mask / 32) % 2 == 1 ==> r.media == readings.media,
        (mask / 32) % 2 == 0 ==> r.media is None,
        (mask / 64) % 2 == 1 ==> r.gpu == readings.gpu,
        (mask / 64) % 2 == 0 ==> r.gpu is None,
        (mask / 128) % 2 == 1 ==> r.display == readings.display,
        (mask / 128) % 2 == 0 ==> r.display is None,
        (mask / 256) % 2 == 1 ==> r.audio == readings.audio,
        (mask / 256) % 2 == 0 ==> r.audio is None,
        (mask / 512) % 2 == 1 ==> r.uptime == readings.uptime,
        (mask / 512) % 2 == 0 ==> r.uptime is None,
{
    proof {
        lemma_bits_of_a_mask(mask);
    }
    let wanted = collect_system_data(mask);
    let cpu: Option<CpuInfo<F>> = match only_if(wanted.cpu, readings.cpu) {
        Some(reading) => Some(cpu_info(reading)),
        None => None,
    };
    SystemData {
        cpu,
        memory: only_if(wanted.memory, readings.memory),
        battery: only_if(wanted.battery, readings.battery),
        disk: only_if(wanted.disk, readings.disk),
        network: only_if(wanted.network, readings.network),
        media: only_if(wanted.media, readings.media),
        gpu: only_if(wanted.gpu, readings.gpu),
        display: only_if(wanted.display, readings.display),
        audio: only_if(wanted.audio, readings.audio),
        uptime: only_if(wanted.uptime, readings.uptime),
    }
}

/// What a battery is doing.
#[derive(Clone, Copy, PartialEq, Eq, Debug, Structural)]
pub enum BatteryState {
    Unknown,
    Charging,
    Discharging,
    Empty,
    Full,
}

/// Describes a battery. A full one counts as charging.
pub fn collect_battery_info<F>(
    state: BatteryState,
    level: F,
    health: Option<F>,
    time_to_empty: Option<u64>,
) -> (r: BatteryInfo<F>)
    ensures
        r == (BatteryInfo {
            level,
            charging: state == BatteryState::Charging || state == BatteryState::Full,
            health,
            time_to_empty,
        }),
{
    let charging = match state {
        BatteryState::Charging => true,
        BatteryState::Full => true,
        _ => false,
    };
    BatteryInfo { level, charging, health, time_to_empty }
}

/// Describes a graphics adapter by its zero-padded name and its memory.
pub fn collect_gpu_info<F>(description: &[u16], vram: u64) -> (r: GpuInfo<F>)
    ensures
        r.name@ == text::trimmed_end(
            platform_text::utf16_lossy_text(description@),
            |c: char| Trim::Only { c: '\0' }.takes(c),
        ),
        forall|t: Seq<char>| #[trigger]
            class_name::utf16(t) == description@ ==> r.name@ == text::trimmed_end(
                t,
                |c: char| Trim::Only { c: '\0' }.takes(c),
            ),
        r.vram == Some(vram),
        r.usage is None,
{
    let padded = utf16_lossy(description);
    proof {
        assert forall|t: Seq<char>| #[trigger]
            class_name::utf16(t) == description@ implies padded@ == t by {
            platform_text::lemma_utf16_comes_back(t);
        }
    }
    let name = trim_end(padded.as_str(), Trim::Only { c: '\0' }).to_owned();
    GpuInfo { name, vram: Some(vram), usage: None }
}

/// Describes the audio output. The name of the device is not looked up.
pub fn collect_audio_info<F>(volume: F, muted: bool) -> (r: AudioInfo<F>)
    ensures
        r == (AudioInfo { volume, muted, output_device: None }),
{
    AudioInfo { volume, muted, output_device: None }
}

/// The current mode of a display.
#[derive(Clone, Copy, PartialEq, Eq, Debug, Structural)]
pub struct DisplayMode {
    pub width: u32,
    pub height: u32,
    /// 0 where it is not known.
    pub frequency: u32,
}

/// What the platform said of a display.
#[derive(Debug)]
pub struct DisplayReading<F> {
    pub flags: u32,
    /// Device name, ended by a 0 where it is shorter.
    pub device_name: [u16; 32],
    pub mode: Option<DisplayMode>,
    pub monitor_rect: Rect,
    pub scale_factor: Option<F>,
}

/// The code units before the first 0.
pub open spec fn before_zero(units: Seq<u16>) -> Seq<u16>
    decreases units.len(),
{
    if units.len() == 0 || units[0] == 0 {
        Seq::empty()
    } else {
        seq![units[0]] + before_zero(units.skip(1))
    }
}

/// `info` describes the display that `d` is a reading of.
pub open spec fn describes<F>(info: DisplayInfo<F>, d: DisplayReading<F>) -> bool {
    &&& info.name@ == platform_text::utf16_lossy_text(before_zero(d.device_name@))
    &&& forall|t: Seq<char>| #[trigger]
        class_name::utf16(t) == before_zero(d.device_name@) ==> info.name@ == t
    &&& match d.mode {
        Some(mode) => {
            &&& info.width == mode.width
            &&& info.height == mode.height
            &&& info.refresh_rate == if mode.frequency > 0 {
                Some(mode.frequency)
            } else {
                None
            }
        },
        None => {
            &&& info.width == (d.monitor_rect.right - d.monitor_rect.left) % 0x1_0000_0000
            &&& info.height == (d.monitor_rect.bottom - d.monitor_rect.top) % 0x1_0000_0000
            &&& info.refresh_rate is None
        },
    }
    &&& info.scale_factor == d.scale_factor
    &&& info.primary == (d.flags % 2 == 1)
}

/// `name` is the text of the code units up to the first 0, or of all of them where there is none.
pub open spec fn named_by_device(name: Seq<char>, units: Seq<u16>) -> bool {
    exists|n: int|
        0 <= n <= units.len() && name == platform_text::utf16_lossy_text(#[trigger] units.take(n))
            && (n < units.len() ==> units[n] == 0) && forall|k: int|
            0 <= k < n ==> #[trigger] units[k] != 0
}

fn name_length(units: &[u16; 32]) -> (n: usize)
    ensures
        n <= 32,
        units@.take(n as int) == before_zero(units@),
{
    let mut n: usize = 0;
    assert(units@.take(0) + before_zero(units@.skip(0)) =~= before_zero(units@)) by {
        assert(units@.skip(0) =~= units@);
    }
    while n < 32 && units[n] != 0
        invariant
            n <= 32,
            units@.take(n as int) + before_zero(units@.skip(n as int)) =~= before_zero(units@),
        decreases 32 - n,
    {
        assert(units@.skip(n as int).skip(1) =~= units@.skip(n + 1));
        assert(units@.take(n + 1) =~= units@.take(n as int).push(units@[n as int]));
        n += 1;
    }
    assert(before_zero(units@.skip(n as int)) =~= Seq::empty());
    n
}

fn span(from: i32, to: i32) -> (r: u32)
    ensures
        r == (to - from) % 0x1_0000_0000,
{
    let d: i64 = to as i64 - from as i64;
    if d >= 0 {
        d as u32
    } else {
        (d + 0x1_0000_0000) as u32
    }
}

fn display_info<F: Copy>(d: &DisplayReading<F>) -> (r: DisplayInfo<F>)
    ensures
        describes(r, *d),
{
    let n: usize = name_length(&d.device_name);
    let units = vstd::slice::slice_subrange(&d.device_name, 0, n);
    assert(units@ =~= before_zero(d.device_name@));
    let name = utf16_lossy(units);
    proof {
        assert forall|t: Seq<char>| #[trigger]
            class_name::utf16(t) == before_zero(d.device_name@) implies name@ == t by {
            platform_text::lemma_utf16_comes_back(t);
        }
    }
    let primary = d.flags % 2 == 1;
    match d.mode {
        Some(mode) => {
            let refresh_rate: Option<u32> = if mode.frequency > 0 {
                Some(mode.frequency)
            } else {
                None
            };
            DisplayInfo {
                name,
                width: mode.width,
                height: mode.height,
                refresh_rate,
                scale_factor: d.scale_factor,
                primary,
            }
        },
        None => DisplayInfo {
            name,
            width: span(d.monitor_rect.left, d.monitor_rect.right),
            height: span(d.monitor_rect.top, d.monitor_rect.bottom),
            refresh_rate: None,
            scale_factor: d.scale_factor,
            primary,
        },
    }
}

/// Describes the displays, in the order of the readings, if there are any.
pub fn collect_display_info<F: Copy>(readings: &Vec<DisplayReading<F>>) -> (r: Option<
    Vec<DisplayInfo<F>>,
>)
    ensures
        readings@.len() == 0 ==> r is None,
        readings@.len() > 0 ==> (r matches Some(infos) && {
            &&& infos@.len() == readings@.len()
            &&& forall|i: int|
                0 <= i < infos@.len() ==> describes(#[trigger] infos@[i], readings@[i])
        }),
        r matches Some(infos) ==> forall|i: int|
            0 <= i < infos@.len() ==> {
                let d = readings@[i];
                &&& d.mode matches Some(mode) ==> {
                    &&& (#[trigger] infos@[i]).width == mode.width
                    &&& infos@[i].height == mode.height
                    &&& mode.frequency == 0 ==> infos@[i].refresh_rate is None
                    &&& mode.frequency != 0 ==> infos@[i].refresh_rate == Some(mode.frequency)
                }
                &&& d.mode is None ==> {
                    &&& (infos@[i].width - (d.monitor_rect.right - d.monitor_rect.left))
                        % 0x1_0000_0000 == 0
                    &&& (infos@[i].height - (d.monitor_rect.bottom - d.monitor_rect.top))
                        % 0x1_0000_0000 == 0
                    &&& infos@[i].refresh_rate is None
                }
                &&& infos@[i].scale_factor == d.scale_factor
                &&& infos@[i].primary <==> d.flags % 2 == 1
                &&& named_by_device(infos@[i].name@, d.device_name@)
            },
{
    let mut infos: Vec<DisplayInfo<F>> = Vec::new();
    let mut i: usize = 0;
    while i < readings.len()
        invariant
            i <= readings@.len(),
            infos@.len() == i,
            forall|j: int| 0 <= j < i ==> describes(#[trigger] infos@[j], readings@[j]),
        decreases readings@.len() - i,
    {
        infos.push(display_info(&readings[i]));
        i += 1;
    }
    proof {
        assert forall|k: int| 0 <= k < infos@.len() implies named_by_device(
            #[trigger] infos@[k].name@,
            readings@[k].device_name@,
        ) by {
            let d = readings@[k];
            lemma_before_zero(d.device_name@);
            let n = before_zero(d.device_name@).len() as int;
            assert(describes(infos@[k], d));
            assert(infos@[k].name@ == platform_text::utf16_lossy_text(d.device_name@.take(n)));
        }
    }
    if infos.len() == 0 {
        None
    } else {
        Some(infos)
    }
}

/// The background monitor: whether it runs, and what it polls.
#[derive(Clone, Copy, PartialEq, Eq, Debug, Structural)]
pub struct MonitorState {
    pub running: bool,
    pub poll_mask: u32,
}

/// What the monitor does next. In every case but [`MonitorStep::Stop`] it waits for the interval
/// afterwards.
#[derive(Clone, Copy, PartialEq, Eq, Debug, Structural)]
pub enum MonitorStep {
    Stop,
    /// Nothing is asked for.
    Idle,
    /// Take these readings and report them.
    Report { mask: u32 },
}

impl MonitorState {
    /// A monitor that does not run and polls nothing.
    pub fn new() -> (r: MonitorState)
        ensures
            r == (MonitorState { running: false, poll_mask: 0 }),
    {
        MonitorState { running: false, poll_mask: 0 }
    }

    /// Marks the monitor as running, and says whether it has to be started.
    pub fn start_monitor(&mut self) -> (start: bool)
        ensures
            start == !old(self).running,
            *final(self) == (MonitorState { running: true, ..*old(self) }),
    {
        if self.running {
            return false;
        }
        self.running = true;
        true
    }

    /// Sets what is polled from now on. 0 pauses the polling.
    pub fn set_poll_mask(&mut self, mask: u32)
        ensures
            *final(self) == (MonitorState { poll_mask: mask, ..*old(self) }),
    {
        self.poll_mask = mask;
    }

    /// What the monitor does next.
    pub open spec fn step(self) -> MonitorStep {
        if !self.running {
            MonitorStep::Stop
        } else if self.poll_mask == 0 {
            MonitorStep::Idle
        } else {
            MonitorStep::Report { mask: self.poll_mask }
        }
    }

    /// Decides what the monitor does next.
    pub fn next_step(&self) -> (r: MonitorStep)
        ensures
            r == self.step(),
    {
        if !self.running {
            MonitorStep::Stop
        } else if self.poll_mask == 0 {
            MonitorStep::Idle
        } else {
            MonitorStep::Report { mask: self.poll_mask }
        }
    }
}

proof fn lemma_category_bits(a: u32, b: u32, m: u32)
    ensures
        (a | b) & m != 0 <==> a & m != 0 || b & m != 0,
{
    assert((a | b) & m != 0 <==> a & m != 0 || b & m != 0) by (bit_vector);
}

proof fn lemma_category_names(a: Seq<char>, b: Seq<char>)
    requires
        category_mask(b) != 0,
    ensures
        category_mask(a) & category_mask(b) != 0 <==> a == b,
{
    assert(MASK_CPU == 1 && MASK_MEMORY == 2 && MASK_BATTERY == 4 && MASK_DISK == 8 && MASK_NETWORK
        == 16 && MASK_MEDIA == 32 && MASK_GPU == 64 && MASK_DISPLAY == 128 && MASK_AUDIO == 256
        && MASK_UPTIME == 512) by (bit_vector);
    let x = category_mask(a);
    let y = category_mask(b);
    assert(x & y != 0 <==> x == y) by (bit_vector)
        requires
            x == 0 || x == 1 || x == 2 || x == 4 || x == 8 || x == 16 || x == 32 || x == 64 || x
                == 128 || x == 256 || x == 512,
            y == 1 || y == 2 || y == 4 || y == 8 || y == 16 || y == 32 || y == 64 || y == 128 || y
                == 256 || y == 512,
    ;
}

/// The mask of several names asks for a category exactly if its name is among them, wherever it
/// stands and however often.
pub proof fn lemma_mask_holds_what_was_named(names: Seq<Seq<char>>, name: Seq<char>)
    requires
        category_mask(name) != 0,
    ensures
        categories_mask(names) & category_mask(name) != 0 <==> names.contains(name),
    decreases names.len(),
{
    let m = category_mask(name);
    if names.len() == 0 {
        assert(0u32 & m == 0) by (bit_vector);
    } else {
        let rest = names.drop_last();
        lemma_mask_holds_what_was_named(rest, name);
        lemma_category_bits(categories_mask(rest), category_mask(names.last()), m);
        lemma_category_names(names.last(), name);
        if names.contains(name) && names.last() != name {
            let i = choose|i: int| 0 <= i < names.len() && names[i] == name;
            assert(rest[i] == name);
        }
        if rest.contains(name) {
            let i = choose|i: int| 0 <= i < rest.len() && rest[i] == name;
            assert(names[i] == name);
        }
        if names.last() == name {
            assert(names[names.len() - 1] == name);
        }
    }
}

/// Polling with an empty mask reports nothing, and with another mask reports that one, as long as
/// the monitor runs.
pub proof fn lemma_empty_mask_pauses_polling(monitor: MonitorState, mask: u32)
    requires
        monitor.running,
    ensures
        ({
            let set = MonitorState { poll_mask: mask, ..monitor };
            if mask == 0 {
                set.step() == MonitorStep::Idle
            } else {
                set.step() == (MonitorStep::Report { mask })
            }
        }),
{
}

/// Each category has a bit of its own, and a name that is none has no bit.
#[verifier::rlimit(40)]
pub proof fn lemma_bit_of_a_category(name: Seq<char>)
    ensures
        category_mask(name) == 1 <==> name == "cpu"@,
        category_mask(name) == 2 <==> name == "memory"@,
        category_mask(name) == 4 <==> name == "battery"@,
        category_mask(name) == 8 <==> name == "disk"@,
        category_mask(name) == 16 <==> name == "network"@,
        category_mask(name) == 32 <==> name == "media"@,
        category_mask(name) == 64 <==> name == "gpu"@,
        category_mask(name) == 128 <==> name == "display"@,
        category_mask(name) == 256 <==> name == "audio"@,
        category_mask(name) == 512 <==> name == "uptime"@,
        category_mask(name) == 0 <==> {
            &&& name != "cpu"@
            &&& name != "memory"@
            &&& name != "battery"@
            &&& name != "disk"@
            &&& name != "network"@
            &&& name != "media"@
            &&& name != "gpu"@
            &&& name != "display"@
            &&& name != "audio"@
            &&& name != "uptime"@
        },
{
    assert(MASK_CPU == 1 && MASK_MEMORY == 2 && MASK_BATTERY == 4 && MASK_DISK == 8 && MASK_NETWORK
        == 16 && MASK_MEDIA == 32 && MASK_GPU == 64 && MASK_DISPLAY == 128 && MASK_AUDIO == 256
        && MASK_UPTIME == 512) by (bit_vector);
    reveal_strlit("cpu");
    reveal_strlit("memory");
    reveal_strlit("battery");
    reveal_strlit("disk");
    reveal_strlit("network");
    reveal_strlit("media");
    reveal_strlit("gpu");
    reveal_strlit("display");
    reveal_strlit("audio");
    reveal_strlit("uptime");
    assert("cpu"@.len() == 3 && "cpu"@[0] == 'c');
    assert("memory"@.len() == 6 && "memory"@[0] == 'm');
    assert("battery"@.len() == 7 && "battery"@[0] == 'b');
    assert("disk"@.len() == 4 && "disk"@[0] == 'd');
    assert("network"@.len() == 7 && "network"@[0] == 'n');
    assert("media"@.len() == 5 && "media"@[0] == 'm');
    assert("gpu"@.len() == 3 && "gpu"@[0] == 'g');
    assert("display"@.len() == 7 && "display"@[0] == 'd');
    assert("audio"@.len() == 5 && "audio"@[0] == 'a');
    assert("uptime"@.len() == 6 && "uptime"@[0] == 'u');
}

/// The bits of a mask, one by one.
proof fn lemma_bits_of_a_mask(mask: u32)
    ensures
        wanted_by(mask).cpu <==> (mask / 1) % 2 == 1,
        wanted_by(mask).memory <==> (mask / 2) % 2 == 1,
        wanted_by(mask).battery <==> (mask / 4) % 2 == 1,
        wanted_by(mask).disk <==> (mask / 8) % 2 == 1,
        wanted_by(mask).network <==> (mask / 16) % 2 == 1,
        wanted_by(mask).media <==> (mask / 32) % 2 == 1,
        wanted_by(mask).gpu <==> (mask / 64) % 2 == 1,
        wanted_by(mask).display <==> (mask / 128) % 2 == 1,
        wanted_by(mask).audio <==> (mask / 256) % 2 == 1,
        wanted_by(mask).uptime <==> (mask / 512) % 2 == 1,
{
    assert({
        &&& mask & MASK_CPU != 0 <==> (mask / 1) % 2 == 1
        &&& mask & MASK_MEMORY != 0 <==> (mask / 2) % 2 == 1
        &&& mask & MASK_BATTERY != 0 <==> (mask / 4) % 2 == 1
        &&& mask & MASK_DISK != 0 <==> (mask / 8) % 2 == 1
        &&& mask & MASK_NETWORK != 0 <==> (mask / 16) % 2 == 1
        &&& mask & MASK_MEDIA != 0 <==> (mask / 32) % 2 == 1
        &&& mask & MASK_GPU != 0 <==> (mask / 64) % 2 == 1
        &&& mask & MASK_DISPLAY != 0 <==> (mask / 128) % 2 == 1
        &&& mask & MASK_AUDIO != 0 <==> (mask / 256) % 2 == 1
        &&& mask & MASK_UPTIME != 0 <==> (mask / 512) % 2 == 1
    }) by (bit_vector);
}

/// Readings are taken of what was named, and of nothing else.
#[verifier::rlimit(40)]
pub proof fn lemma_what_was_named_is_read(names: Seq<Seq<char>>)
    ensures
        wanted_by(categories_mask(names)).cpu <==> names.contains("cpu"@),
        wanted_by(categories_mask(names)).memory <==> names.contains("memory"@),
        wanted_by(categories_mask(names)).battery <==> names.contains("battery"@),
        wanted_by(categories_mask(names)).disk <==> names.contains("disk"@),
        wanted_by(categories_mask(names)).network <==> names.contains("network"@),
        wanted_by(categories_mask(names)).media <==> names.contains("media"@),
        wanted_by(categories_mask(names)).gpu <==> names.contains("gpu"@),
        wanted_by(categories_mask(names)).display <==> names.contains("display"@),
        wanted_by(categories_mask(names)).audio <==> names.contains("audio"@),
        wanted_by(categories_mask(names)).uptime <==> names.contains("uptime"@),
{
    assert(MASK_CPU == 1 && MASK_MEMORY == 2 && MASK_BATTERY == 4 && MASK_DISK == 8 && MASK_NETWORK
        == 16 && MASK_MEDIA == 32 && MASK_GPU == 64 && MASK_DISPLAY == 128 && MASK_AUDIO == 256
        && MASK_UPTIME == 512) by (bit_vector);
    lemma_bit_of_a_category("cpu"@);
    lemma_mask_holds_what_was_named(names, "cpu"@);
    lemma_bit_of_a_category("memory"@);
    lemma_mask_holds_what_was_named(names, "memory"@);
    lemma_bit_of_a_category("battery"@);
    lemma_mask_holds_what_was_named(names, "battery"@);
    lemma_bit_of_a_category("disk"@);
    lemma_mask_holds_what_was_named(names, "disk"@);
    lemma_bit_of_a_category("network"@);
    lemma_mask_holds_what_was_named(names, "network"@);
    lemma_bit_of_a_category("media"@);
    lemma_mask_holds_what_was_named(names, "media"@);
    lemma_bit_of_a_category("gpu"@);
    lemma_mask_holds_what_was_named(names, "gpu"@);
    lemma_bit_of_a_category("display"@);
    lemma_mask_holds_what_was_named(names, "display"@);
    lemma_bit_of_a_category("audio"@);
    lemma_mask_holds_what_was_named(names, "audio"@);
    lemma_bit_of_a_category("uptime"@);
    lemma_mask_holds_what_was_named(names, "uptime"@);
}

/// The code units before the first 0 are as many as there are without one.
pub proof fn lemma_before_zero(units: Seq<u16>)
    ensures
        ({
            let t = before_zero(units);
            &&& t.len() <= units.len() && t == units.take(t.len() as int)
            &&& forall|i: int| 0 <= i < t.len() ==> #[trigger] units[i] != 0
            &&& t.len() < units.len() ==> units[t.len() as int] == 0
        }),
    decreases units.len(),
{
    let t = before_zero(units);
    if units.len() > 0 && units[0] != 0 {
        let rest = units.skip(1);
        lemma_before_zero(rest);
        assert(t =~= units.take(t.len() as int)) by {
            assert forall|i: int| 0 < i < t.len() implies t[i] == units[i] by {
                assert(rest.take(before_zero(rest).len() as int)[i - 1] == rest[i - 1]);
            }
        }
        assert forall|i: int| 0 <= i < t.len() implies #[trigger] units[i] != 0 by {
            if i > 0 {
                assert(rest[i - 1] == units[i]);
            }
        }
    } else {
        assert(units.take(0) =~= t);
    }
}

/// A monitor that does not run stops, whatever it was asked to poll.
pub proof fn lemma_stopped_monitor_stops(monitor: MonitorState)
    ensures
        monitor.step() == MonitorStep::Stop <==> !monitor.running,
{
}

/// A display that is described has the size of its mode and its refresh rate, which a mode of 0
/// Hertz does not know; without a mode it has the size of its monitor, and no rate is known. It is
/// the primary one exactly if the lowest flag is set.
pub proof fn lemma_what_describes_a_display<F>(info: DisplayInfo<F>, d: DisplayReading<F>)
    requires
        describes(info, d),
    ensures
        d.mode matches Some(mode) ==> {
            &&& info.width == mode.width && info.height == mode.height
            &&& mode.frequency == 0 ==> info.refresh_rate is None
            &&& mode.frequency != 0 ==> info.refresh_rate == Some(mode.frequency)
        },
        d.mode is None ==> {
            &&& info.refresh_rate is None
            &&& d.monitor_rect.left <= d.monitor_rect.right ==> info.width == d.monitor_rect.right
                - d.monitor_rect.left
            &&& d.monitor_rect.top <= d.monitor_rect.bottom ==> info.height == d.monitor_rect.bottom
                - d.monitor_rect.top
        },
        info.scale_factor == d.scale_factor,
        info.primary <==> d.flags % 2 == 1,
{
}

/// A battery counts as charging while it charges and while it is full, and in no other state.
pub proof fn lemma_when_a_battery_charges<F>(
    state: BatteryState,
    level: F,
    health: Option<F>,
    time_to_empty: Option<u64>,
    r: BatteryInfo<F>,
)
    requires
        call_ensures(collect_battery_info::<F>, (state, level, health, time_to_empty), r),
    ensures
        state is Charging || state is Full ==> r.charging,
        state is Unknown || state is Discharging || state is Empty ==> !r.charging,
        r.level == level && r.health == health && r.time_to_empty == time_to_empty,
{
}

/// The processor has as many cores as models were read, and is called by the first of them.
pub proof fn lemma_cores_of_the_processor<F>(reading: CpuReading<F>, r: CpuInfo<F>)
    requires
        call_ensures(cpu_info::<F>, (reading,), r),
        reading.brands@.len() < 0x1_0000_0000,
    ensures
        r.cores == reading.brands@.len(),
        reading.brands@.len() > 0 ==> r.model@ == reading.brands@[0]@,
        reading.brands@.len() == 0 ==> r.model@.len() == 0,
        r.usage == reading.usage,
{
}

/// The name of an adapter is its description up to the padding: nothing but zeros follows it, and
/// it does not end with one.
pub proof fn lemma_name_of_an_adapter<F>(description: &[u16], vram: u64, r: GpuInfo<F>)
    requires
        call_ensures(collect_gpu_info::<F>, (description, vram), r),
    ensures
        ({
            let all = platform_text::utf16_lossy_text(description@);
            &&& r.name@.len() <= all.len() && r.name@ == all.take(r.name@.len() as int)
            &&& forall|i: int| r.name@.len() <= i < all.len() ==> #[trigger] all[i] == '\0'
            &&& r.name@.len() > 0 ==> r.name@.last() != '\0'
        }),
        r.vram == Some(vram) && r.usage is None,
{
    let zero = |c: char| Trim::Only { c: '\0' }.takes(c);
    let all = platform_text::utf16_lossy_text(description@);
    text::lemma_trimmed_end(all, zero);
    assert forall|i: int| r.name@.len() <= i < all.len() implies #[trigger] all[i] == '\0' by {
        assert(zero(all[i]));
    }
}

} // verus!
