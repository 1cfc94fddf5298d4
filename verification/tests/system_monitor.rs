//! System data and the background monitor.

use mywallpaper_desktop::system_monitor::{
    collect_audio_info, collect_battery_info, collect_display_info, collect_gpu_info,
    collect_system_data, collect_with_system, cpu_info, parse_categories, BatteryState, CpuReading,
    DisplayMode, DisplayReading, MemoryInfo, MonitorState, MonitorStep, Readings, MASK_AUDIO,
    MASK_BATTERY, MASK_CPU, MASK_DISK, MASK_DISPLAY, MASK_GPU, MASK_MEDIA, MASK_MEMORY,
    MASK_NETWORK, MASK_UPTIME,
};
use mywallpaper_desktop::window_layer::desktop::Rect;

fn strings(v: &[&str]) -> Vec<String> {
    v.iter().map(|s| s.to_string()).collect()
}

fn units(s: &str) -> [u16; 32] {
    let mut out = [0u16; 32];
    for (i, u) in s.encode_utf16().enumerate() {
        out[i] = u;
    }
    out
}

fn all_readings() -> Readings<f32, u8> {
    Readings {
        cpu: Some(CpuReading { brands: strings(&["Model A", "Model B"]), usage: 12.5 }),
        memory: Some(MemoryInfo { total: 8, used: 3, free: 5 }),
        battery: Some(collect_battery_info(BatteryState::Full, 1.0, None, None)),
        disk: Some(Vec::new()),
        network: Some(Vec::new()),
        media: Some(7),
        gpu: Some(collect_gpu_info(&[65, 0, 0], 1024)),
        display: Some(Vec::new()),
        audio: Some(collect_audio_info(0.5, true)),
        uptime: Some(99),
    }
}

#[test]
fn each_category_has_its_bit() {
    for (name, mask) in [
        ("cpu", 1),
        ("memory", 2),
        ("battery", 4),
        ("disk", 8),
        ("network", 16),
        ("media", 32),
        ("gpu", 64),
        ("display", 128),
        ("audio", 256),
        ("uptime", 512),
    ] {
        assert_eq!(parse_categories(&strings(&[name])), mask);
    }
    assert_eq!(parse_categories(&[]), 0);
    assert_eq!(parse_categories(&strings(&["nonsense", "Cpu", ""])), 0);
}

#[test]
fn order_and_repetition_do_not_matter() {
    let mask = MASK_CPU | MASK_DISK | MASK_UPTIME;
    assert_eq!(parse_categories(&strings(&["cpu", "disk", "uptime"])), mask);
    assert_eq!(parse_categories(&strings(&["uptime", "cpu", "x", "disk", "cpu"])), mask);
}

#[test]
fn a_mask_says_what_to_read() {
    let wanted = collect_system_data(MASK_CPU | MASK_AUDIO);
    assert!(wanted.cpu && wanted.audio);
    assert!(!wanted.memory && !wanted.battery && !wanted.disk && !wanted.network);
    assert!(!wanted.media && !wanted.gpu && !wanted.display && !wanted.uptime);
    let all = collect_system_data(u32::MAX);
    assert!(all.cpu && all.memory && all.battery && all.disk && all.network);
    assert!(all.media && all.gpu && all.display && all.audio && all.uptime);
}

#[test]
fn only_what_was_asked_for_is_reported() {
    for bit in 0..10 {
        let data = collect_with_system(1u32 << bit, all_readings());
        let present = [
            data.cpu.is_some(),
            data.memory.is_some(),
            data.battery.is_some(),
            data.disk.is_some(),
            data.network.is_some(),
            data.media.is_some(),
            data.gpu.is_some(),
            data.display.is_some(),
            data.audio.is_some(),
            data.uptime.is_some(),
        ];
        for (i, p) in present.iter().enumerate() {
            assert_eq!(*p, i == bit);
        }
    }
    assert_eq!(MASK_MEMORY | MASK_BATTERY | MASK_NETWORK | MASK_MEDIA, 2 + 4 + 16 + 32);
    assert_eq!(MASK_GPU | MASK_DISPLAY, 64 + 128);
}

#[test]
fn a_reading_that_failed_is_not_reported() {
    let none: Readings<f32, u8> = Readings {
        cpu: None,
        memory: None,
        battery: None,
        disk: None,
        network: None,
        media: None,
        gpu: None,
        display: None,
        audio: None,
        uptime: None,
    };
    let data = collect_with_system(u32::MAX, none);
    assert!(data.cpu.is_none() && data.battery.is_none() && data.uptime.is_none());
}

#[test]
fn readings_are_summarised() {
    let data = collect_with_system(u32::MAX, all_readings());
    let cpu = data.cpu.unwrap();
    assert_eq!(cpu.cores, 2);
    assert_eq!(cpu.usage, 12.5);
    assert_eq!(cpu.model, "Model A");
    let memory = data.memory.unwrap();
    assert_eq!((memory.total, memory.used, memory.free), (8, 3, 5));
    assert_eq!(data.media, Some(7));
    assert_eq!(data.uptime, Some(99));
    let gpu = data.gpu.unwrap();
    assert_eq!(gpu.name, "A");
    assert_eq!(gpu.vram, Some(1024));
    assert_eq!(gpu.usage, None);
    let audio = data.audio.unwrap();
    assert_eq!((audio.volume, audio.muted), (0.5, true));
    assert_eq!(audio.output_device, None);
    let none = cpu_info(CpuReading { brands: Vec::new(), usage: 0.0f32 });
    assert_eq!((none.cores, none.model.as_str()), (0, ""));
}

#[test]
fn a_full_battery_counts_as_charging() {
    for (state, charging) in [
        (BatteryState::Unknown, false),
        (BatteryState::Charging, true),
        (BatteryState::Discharging, false),
        (BatteryState::Empty, false),
        (BatteryState::Full, true),
    ] {
        let info = collect_battery_info(state, 0.25f32, Some(0.5), Some(60));
        assert_eq!(info.charging, charging);
        assert_eq!((info.level, info.health, info.time_to_empty), (0.25, Some(0.5), Some(60)));
    }
}

#[test]
fn adapter_names_lose_their_padding() {
    let name: Vec<u16> = "GeForce\u{1F600}\0x\0\0".encode_utf16().collect();
    assert_eq!(collect_gpu_info::<f32>(&name, 0).name, "GeForce\u{1F600}\0x");
    assert_eq!(collect_gpu_info::<f32>(&[0xD800, 0], 0).name, "\u{FFFD}");
    assert_eq!(collect_gpu_info::<f32>(&[], 0).name, "");
}

#[test]
fn unpaired_surrogates_are_replaced() {
    let cases: [(&[u16], &str); 6] = [
        (&[0x41, 0xDC00, 0x42], "A\u{FFFD}B"),
        (&[0xD800, 0xD83D, 0xDE00], "\u{FFFD}\u{1F600}"),
        (&[0xDE00, 0xD83D], "\u{FFFD}\u{FFFD}"),
        (&[0xD800, 0xDC00, 0xDBFF, 0xDFFF], "\u{10000}\u{10FFFF}"),
        (&[0xD7FF, 0xE000, 0xFFFF], "\u{D7FF}\u{E000}\u{FFFF}"),
        (&[0xD800, 0x41], "\u{FFFD}A"),
    ];
    for (name, expected) in cases {
        assert_eq!(collect_gpu_info::<f32>(name, 0).name, expected);
        let mut device_name = [0u16; 32];
        device_name[..name.len()].copy_from_slice(name);
        let reading = DisplayReading::<f32> {
            flags: 0,
            device_name,
            mode: None,
            monitor_rect: Rect { left: 0, top: 0, right: 1, bottom: 1 },
            scale_factor: None,
        };
        assert_eq!(collect_display_info(&vec![reading]).unwrap()[0].name, expected);
    }
}

#[test]
fn displays_are_described() {
    let rect = Rect { left: -1920, top: 0, right: 0, bottom: 1080 };
    let readings = vec![
        DisplayReading {
            flags: 1,
            device_name: units("\\\\.\\DISPLAY1"),
            mode: Some(DisplayMode { width: 2560, height: 1440, frequency: 144 }),
            monitor_rect: rect,
            scale_factor: Some(1.25f32),
        },
        DisplayReading {
            flags: 2,
            device_name: [97; 32],
            mode: Some(DisplayMode { width: 1, height: 2, frequency: 0 }),
            monitor_rect: rect,
            scale_factor: None,
        },
        DisplayReading {
            flags: 3,
            device_name: [0; 32],
            mode: None,
            monitor_rect: rect,
            scale_factor: None,
        },
    ];
    let infos = collect_display_info(&readings).unwrap();
    assert_eq!(infos.len(), 3);
    assert_eq!(infos[0].name, "\\\\.\\DISPLAY1");
    assert_eq!((infos[0].width, infos[0].height), (2560, 1440));
    assert_eq!(infos[0].refresh_rate, Some(144));
    assert_eq!(infos[0].scale_factor, Some(1.25));
    assert!(infos[0].primary);
    assert_eq!(infos[1].name, "a".repeat(32));
    assert_eq!(infos[1].refresh_rate, None);
    assert!(!infos[1].primary);
    assert_eq!(infos[2].name, "");
    assert_eq!((infos[2].width, infos[2].height), (1920, 1080));
    assert_eq!(infos[2].refresh_rate, None);
    assert!(infos[2].primary);
    assert!(collect_display_info(&Vec::<DisplayReading<f32>>::new()).is_none());
}

#[test]
fn the_monitor_starts_once_and_pauses() {
    let mut monitor = MonitorState::new();
    assert_eq!(monitor.next_step(), MonitorStep::Stop);
    assert!(monitor.start_monitor());
    assert!(!monitor.start_monitor());
    assert_eq!(monitor.next_step(), MonitorStep::Idle);
    monitor.set_poll_mask(MASK_CPU);
    assert_eq!(monitor.next_step(), MonitorStep::Report { mask: MASK_CPU });
    monitor.set_poll_mask(0);
    assert_eq!(monitor.next_step(), MonitorStep::Idle);
}
