//! The boot sequencer: one fixed, fail-fast pass over the mandatory devices.
//!
//! The bootloader's boot-information block is modeled as plain values; the
//! kernel gathers it (and the outcomes of the hardware probes only it can
//! run) and hands everything here. The sequencer makes every decision of the
//! boot path — which memory region backs the heap, whether the framebuffer
//! and the ACPI root pointer are present, which pointer revision wins, and
//! whether the keyboard chain came up — in the fixed order memory,
//! interrupts, timer, display, ACPI, keyboard. Any missing metadata or
//! failed initialization is fatal: the sequencer stops at that stage,
//! returns the fatal outcome, and the registry shows that no later stage was
//! touched. The kernel drives the sequence step by step — `startup_begin`
//! for everything decidable from the boot information, then each hardware
//! outcome fed to its registry step, strictly behind the previous stage's
//! gate — or hands all outcomes to `startup` at once. On success it executes
//! the plan: initialize the allocator over the chosen region, schedule the
//! cursor animation unit, and enter the input pipeline's loop forever.

use vstd::prelude::*;
use vstd::string::StringExecFns;
use crate::device_service::{AcpiTablesInfo, DeviceService, FatalError};
use crate::lfb_terminal::CursorThread;

verus! {

#[derive(Clone, Copy, PartialEq, Eq, Structural, Debug)]
pub enum AreaType {
    Available,
    Reserved,
}

/// One region of the boot-provided memory map.
#[derive(Clone, Copy, PartialEq, Eq, Structural, Debug)]
pub struct MemoryArea {
    pub start: u64,
    pub end: u64,
    pub typ: AreaType,
}

impl MemoryArea {
    pub open spec fn wf(self) -> bool {
        self.start <= self.end
    }

    pub open spec fn spec_size(self) -> int {
        self.end - self.start
    }

    pub fn size(&self) -> (r: u64)
        requires
            self.wf(),
        ensures
            r as int == self.spec_size(),
    {
        self.end - self.start
    }
}

/// The framebuffer geometry the bootloader describes.
#[derive(Clone, Copy, PartialEq, Eq, Structural, Debug)]
pub struct FramebufferInfo {
    pub address: u64,
    pub pitch: u32,
    pub width: u32,
    pub height: u32,
    pub bpp: u8,
}

/// The boot-information block, as plain values: the memory-area list (absent
/// when the bootloader gave none), the framebuffer descriptor, the two
/// possible ACPI root pointers (already resolved to physical addresses), and
/// the bootloader's name.
pub struct BootInfo {
    pub memory_areas: Option<Vec<MemoryArea>>,
    pub framebuffer: Option<FramebufferInfo>,
    pub rsdp_v2: Option<usize>,
    pub rsdp_v1: Option<usize>,
    pub bootloader_name: Option<String>,
}

/// The best heap candidate among the first `n` areas: the largest area
/// tagged available, the earliest one on ties; nothing while none of them
/// is available.
pub open spec fn heap_fold(areas: Seq<MemoryArea>, n: int) -> Option<MemoryArea>
    recommends
        n <= areas.len(),
    decreases n,
{
    if n <= 0 {
        None
    } else {
        let prev = heap_fold(areas, n - 1);
        let a = areas[n - 1];
        if a.typ == AreaType::Available && (prev is None || a.spec_size() > (
        prev->Some_0).spec_size()) {
            Some(a)
        } else {
            prev
        }
    }
}

/// The memory region the boot sequencer backs the heap with: the largest
/// available one, or nothing when the map holds no available area at all.
pub open spec fn spec_heap_choice(areas: Seq<MemoryArea>) -> Option<MemoryArea> {
    heap_fold(areas, areas.len() as int)
}

proof fn lemma_heap_fold_props(areas: Seq<MemoryArea>, n: int)
    requires
        0 <= n <= areas.len(),
    ensures
        heap_fold(areas, n) is None <==> forall|i: int|
            0 <= i < n ==> (#[trigger] areas[i]).typ != AreaType::Available,
        heap_fold(areas, n) matches Some(chosen) ==> exists|i: int|
            0 <= i < n && chosen == areas[i] && chosen.typ == AreaType::Available,
        heap_fold(areas, n) matches Some(chosen) ==> forall|i: int|
            0 <= i < n && (#[trigger] areas[i]).typ == AreaType::Available ==> chosen.spec_size()
                >= areas[i].spec_size(),
    decreases n,
{
    if n > 0 {
        lemma_heap_fold_props(areas, n - 1);
    }
}

/// The chosen heap region exists exactly when some area is available, is
/// itself one of the available areas, and is at least as large as every
/// available one.
pub proof fn lemma_heap_choice_is_largest_available(areas: Seq<MemoryArea>)
    ensures
        spec_heap_choice(areas) is None <==> forall|i: int|
            0 <= i < areas.len() ==> (#[trigger] areas[i]).typ != AreaType::Available,
        spec_heap_choice(areas) matches Some(chosen) ==> exists|i: int|
            0 <= i < areas.len() && chosen == areas[i] && chosen.typ == AreaType::Available,
        spec_heap_choice(areas) matches Some(chosen) ==> forall|i: int|
            0 <= i < areas.len() && (#[trigger] areas[i]).typ == AreaType::Available
                ==> chosen.spec_size() >= areas[i].spec_size(),
{
    lemma_heap_fold_props(areas, areas.len() as int);
}

/// Scans the memory map for the region to back the heap: the largest area
/// tagged available. A map without any available area yields nothing — boot
/// cannot continue without memory to allocate from.
pub fn select_heap_area(areas: &Vec<MemoryArea>) -> (r: Option<MemoryArea>)
    requires
        forall|i: int| 0 <= i < areas@.len() ==> (#[trigger] areas@[i]).wf(),
    ensures
        r == spec_heap_choice(areas@),
        r matches Some(chosen) ==> chosen.wf(),
{
    let mut best: Option<MemoryArea> = None;
    let mut i: usize = 0;
    while i < areas.len()
        invariant
            i <= areas@.len(),
            forall|j: int| 0 <= j < areas@.len() ==> (#[trigger] areas@[j]).wf(),
            best == heap_fold(areas@, i as int),
            best matches Some(b) ==> b.wf(),
        decreases areas@.len() - i,
    {
        let a = areas[i];
        if a.typ == AreaType::Available {
            match &best {
                None => {
                    best = Some(a);
                },
                Some(b) => {
                    if a.size() > b.size() {
                        best = Some(a);
                    }
                },
            }
        }
        i = i + 1;
    }
    best
}

/// Whether the boot information holds a memory map with at least one
/// available area — without one there is nothing to allocate from, which is
/// as fatal as a missing map.
pub open spec fn has_heap_area(info: BootInfo) -> bool {
    info.memory_areas matches Some(areas) && spec_heap_choice(areas@) is Some
}

/// Whether the boot information holds any ACPI root pointer.
pub open spec fn has_rsdp(info: BootInfo) -> bool {
    info.rsdp_v2 is Some || info.rsdp_v1 is Some
}

/// The root pointer the sequencer resolves to: the v2 pointer when present,
/// the v1 pointer otherwise.
pub open spec fn spec_rsdp_address(info: BootInfo) -> usize
    recommends
        has_rsdp(info),
{
    if info.rsdp_v2 is Some {
        info.rsdp_v2->Some_0
    } else {
        info.rsdp_v1->Some_0
    }
}

/// Resolves the ACPI root pointer: prefer v2, fall back to v1, fatal when
/// neither is present.
pub fn resolve_rsdp(info: &BootInfo) -> (r: Result<usize, FatalError>)
    ensures
        has_rsdp(*info) ==> r == Result::<usize, FatalError>::Ok(spec_rsdp_address(*info)),
        !has_rsdp(*info) ==> r == Result::<usize, FatalError>::Err(FatalError::NoAcpi),
{
    match &info.rsdp_v2 {
        Some(addr) => Ok(*addr),
        None => match &info.rsdp_v1 {
            Some(addr) => Ok(*addr),
            None => Err(FatalError::NoAcpi),
        },
    }
}

/// The outcomes of the hardware steps only the kernel can run: the PS/2
/// controller and keyboard initializations, and the ACPI parse at the
/// resolved root pointer (the revision the root table reported, when the
/// parse succeeded).
#[derive(Clone, Copy, Debug)]
pub struct HardwareOutcomes {
    pub ps2_controller: Result<(), u8>,
    pub ps2_keyboard: Result<(), u8>,
    pub acpi_revision: Option<u8>,
}

/// What the kernel executes after the decisions are made: the heap region
/// for the allocator, the framebuffer the display was bound to, the resolved
/// ACPI root pointer, and the cursor animation unit to schedule.
#[derive(Debug)]
pub struct BootPlan {
    pub heap_start: u64,
    pub heap_size: u64,
    pub framebuffer: FramebufferInfo,
    pub rsdp_address: usize,
    pub cursor_thread: CursorThread,
}

/// Every stage of the boot succeeds on these inputs.
pub open spec fn boot_succeeds(info: BootInfo, hardware: HardwareOutcomes) -> bool {
    &&& has_heap_area(info)
    &&& info.framebuffer is Some
    &&& has_rsdp(info)
    &&& hardware.acpi_revision is Some
    &&& hardware.ps2_controller is Ok
    &&& hardware.ps2_keyboard is Ok
}

/// The decisions that need no hardware answer, gated in boot order: memory,
/// display, ACPI root pointer. Each missing piece of boot metadata is fatal
/// at its own stage and leaves every later stage untouched — a boot that
/// dies before the display never creates a cursor animation unit. On
/// success the kernel holds a plan naming the heap region, the framebuffer
/// the display was bound to, and the root pointer to parse; only then may
/// it run the ACPI parse (`DeviceService::init_acpi_tables` with the
/// outcome) and, gated behind that, the two PS/2 steps.
pub fn startup_begin(registry: &mut DeviceService, info: &BootInfo) -> (r: Result<
    BootPlan,
    FatalError,
>)
    requires
        old(registry).is_fresh(),
        info.memory_areas matches Some(areas) ==> forall|i: int|
            0 <= i < areas@.len() ==> (#[trigger] areas@[i]).wf(),
    ensures
        r is Ok <==> has_heap_area(*info) && info.framebuffer is Some && has_rsdp(*info),
        !has_heap_area(*info) ==> r == Result::<BootPlan, FatalError>::Err(
            FatalError::NoMemoryMap,
        ) && *final(registry) == *old(registry),
        has_heap_area(*info) && info.framebuffer is None ==> r == Result::<
            BootPlan,
            FatalError,
        >::Err(FatalError::NoFramebuffer) && *final(registry) == *old(registry),
        has_heap_area(*info) ==> (info.framebuffer matches Some(fb) ==> {
            &&& final(registry).terminal.address == fb.address
            &&& final(registry).terminal.pitch == fb.pitch
            &&& final(registry).terminal.width == fb.width
            &&& final(registry).terminal.height == fb.height
            &&& final(registry).terminal.bpp == fb.bpp
            &&& final(registry).terminal.written@.len() == 0
            &&& final(registry).terminal.cursor_visible == false
            &&& final(registry).cursor_threads == 1
        }),
        has_heap_area(*info) && info.framebuffer is Some && !has_rsdp(*info) ==> r == Result::<
            BootPlan,
            FatalError,
        >::Err(FatalError::NoAcpi),
        has_heap_area(*info) && info.framebuffer is Some && has_rsdp(*info) ==> (r matches Ok(plan)
            && {
            &&& plan.heap_start == (spec_heap_choice(info.memory_areas->Some_0@)->Some_0).start
            &&& plan.heap_size == (spec_heap_choice(info.memory_areas->Some_0@)->Some_0).spec_size()
            &&& Some(plan.framebuffer) == info.framebuffer
            &&& plan.rsdp_address == spec_rsdp_address(*info)
            &&& plan.cursor_thread.frames == 0
        }),
        final(registry).acpi_tables == old(registry).acpi_tables,
        final(registry).ps2 == old(registry).ps2,
        final(registry).serial == old(registry).serial,
        final(registry).speaker == old(registry).speaker,
{
    // Stage: memory. Boot halts without an available region to allocate
    // from.
    let areas = match &info.memory_areas {
        Some(areas) => areas,
        None => {
            return Err(FatalError::NoMemoryMap);
        },
    };
    let heap = match select_heap_area(areas) {
        Some(heap) => heap,
        None => {
            return Err(FatalError::NoMemoryMap);
        },
    };
    // Stages: interrupt controller, dispatch table, interrupt enable, timer.
    // Pure hardware programming, run by the kernel between these decisions.
    // Stage: display. Fatal without a framebuffer tag; afterwards exactly one
    // cursor animation unit exists for the scheduler.
    let fb = match &info.framebuffer {
        Some(fb) => *fb,
        None => {
            return Err(FatalError::NoFramebuffer);
        },
    };
    let cursor_thread = registry.init_terminal(fb.address, fb.pitch, fb.width, fb.height, fb.bpp);
    // Stage: ACPI root pointer, v2 preferred. The parse itself waits for the
    // kernel: it must not run when this already failed.
    let rsdp_address = match resolve_rsdp(info) {
        Ok(addr) => addr,
        Err(e) => {
            return Err(e);
        },
    };
    Ok(
        BootPlan {
            heap_start: heap.start,
            heap_size: heap.size(),
            framebuffer: fb,
            rsdp_address,
            cursor_thread,
        },
    )
}

/// Runs the whole boot sequence in one call, on hardware outcomes gathered
/// up front: the same decisions as `startup_begin` followed by the ACPI and
/// PS/2 steps. Every failure is fatal and stops the sequence at its stage:
/// the returned error names the stage, and the registry keeps every later
/// device untouched — in particular, a boot that dies before the display
/// never creates a cursor animation unit. A kernel that must not touch
/// hardware past a failed stage drives the steps itself instead:
/// `startup_begin`, then `init_acpi_tables`, `init_ps2_controller` and
/// `init_ps2_keyboard`, each only after the one before returned `Ok`.
pub fn startup(registry: &mut DeviceService, info: &BootInfo, hardware: &HardwareOutcomes) -> (r:
    Result<BootPlan, FatalError>)
    requires
        old(registry).is_fresh(),
        info.memory_areas matches Some(areas) ==> forall|i: int|
            0 <= i < areas@.len() ==> (#[trigger] areas@[i]).wf(),
    ensures
        r is Ok <==> boot_succeeds(*info, *hardware),
        !has_heap_area(*info) ==> r == Result::<BootPlan, FatalError>::Err(
            FatalError::NoMemoryMap,
        ) && *final(registry) == *old(registry),
        has_heap_area(*info) && info.framebuffer is None ==> r == Result::<
            BootPlan,
            FatalError,
        >::Err(FatalError::NoFramebuffer) && *final(registry) == *old(registry),
        has_heap_area(*info) ==> (info.framebuffer matches Some(fb) ==> {
            &&& final(registry).terminal.address == fb.address
            &&& final(registry).terminal.pitch == fb.pitch
            &&& final(registry).terminal.width == fb.width
            &&& final(registry).terminal.height == fb.height
            &&& final(registry).terminal.bpp == fb.bpp
            &&& final(registry).terminal.written@.len() == 0
            &&& final(registry).terminal.cursor_visible == false
            &&& final(registry).cursor_threads == 1
        }),
        has_heap_area(*info) && info.framebuffer is Some && !has_rsdp(*info) ==> r == Result::<
            BootPlan,
            FatalError,
        >::Err(FatalError::NoAcpi) && final(registry).acpi_tables is None
            && !final(registry).ps2.controller_initialized,
        has_heap_area(*info) && info.framebuffer is Some && has_rsdp(*info)
            && hardware.acpi_revision is None ==> r == Result::<BootPlan, FatalError>::Err(
            FatalError::AcpiParseFailed,
        ) && final(registry).acpi_tables is None
            && !final(registry).ps2.controller_initialized,
        has_heap_area(*info) && info.framebuffer is Some && has_rsdp(*info) ==> (
        hardware.acpi_revision matches Some(revision) ==> final(registry).acpi_tables == Some(
            AcpiTablesInfo { rsdp_address: spec_rsdp_address(*info), revision },
        )),
        has_heap_area(*info) && info.framebuffer is Some && has_rsdp(*info)
            && hardware.acpi_revision is Some ==> (hardware.ps2_controller matches Err(code)
            ==> r == Result::<BootPlan, FatalError>::Err(FatalError::Ps2ControllerFailed(code))
                && !final(registry).ps2.controller_initialized),
        has_heap_area(*info) && info.framebuffer is Some && has_rsdp(*info)
            && hardware.acpi_revision is Some && hardware.ps2_controller is Ok ==> (
        hardware.ps2_keyboard matches Err(code) ==> r == Result::<BootPlan, FatalError>::Err(
            FatalError::Ps2KeyboardFailed(code),
        ) && final(registry).ps2.controller_initialized
            && !final(registry).ps2.keyboard_initialized),
        boot_succeeds(*info, *hardware) ==> (r matches Ok(plan) && {
            &&& plan.heap_start == (spec_heap_choice(info.memory_areas->Some_0@)->Some_0).start
            &&& plan.heap_size == (spec_heap_choice(info.memory_areas->Some_0@)->Some_0).spec_size()
            &&& Some(plan.framebuffer) == info.framebuffer
            &&& plan.rsdp_address == spec_rsdp_address(*info)
            &&& plan.cursor_thread.frames == 0
            &&& final(registry).ps2.ready()
        }),
        final(registry).serial == old(registry).serial,
        final(registry).speaker == old(registry).speaker,
{
    // Stages: memory, display, ACPI root pointer.
    let plan = match startup_begin(registry, info) {
        Ok(plan) => plan,
        Err(e) => {
            return Err(e);
        },
    };
    // Stage: ACPI parse at the resolved root pointer.
    if let Err(e) = registry.init_acpi_tables(plan.rsdp_address, hardware.acpi_revision) {
        return Err(e);
    }
    // Stage: keyboard. Controller, then device and interrupt routing; the
    // first failure wins.
    if let Err(e) = registry.init_ps2_controller(hardware.ps2_controller) {
        return Err(e);
    }
    if let Err(e) = registry.init_ps2_keyboard(hardware.ps2_keyboard) {
        return Err(e);
    }
    Ok(plan)
}

/// The result of rendering an RFC 2822 build timestamp as
/// `year-month-day hour:minute:second`, when the timestamp parses.
pub uninterp spec fn rfc2822_display(s: Seq<char>) -> Option<Seq<char>>;

/// Relies on chrono's DateTime::parse_from_rfc2822 and DateTime::format:
/// whether the text parses as an RFC 2822 date, and the rendered form,
/// depend on the input characters alone.
#[verifier::external_body]
fn format_rfc2822(s: &str) -> (r: Option<String>)
    ensures
        r is Some <==> rfc2822_display(s@) is Some,
        r matches Some(out) ==> rfc2822_display(s@) == Some(out@),
{
    match chrono::DateTime::parse_from_rfc2822(s) {
        Ok(date_time) => Some(date_time.format("%Y-%m-%d %H:%M:%S").to_string()),
        Err(_) => None,
    }
}

/// The banner's build date: the RFC 2822 build timestamp rendered as
/// `year-month-day hour:minute:second`, or `Unknown` when it does not parse.
pub fn banner_date(built_time: &str) -> (r: String)
    ensures
        rfc2822_display(built_time@) matches Some(rendered) ==> r@ == rendered,
        rfc2822_display(built_time@) is None ==> r@ == "Unknown"@,
{
    match format_rfc2822(built_time) {
        Some(rendered) => rendered,
        None => String::from_str("Unknown"),
    }
}

/// A banner field that the build or the bootloader may not provide:
/// `Unknown` stands in for an absent value.
pub fn or_unknown<'a>(value: Option<&'a str>) -> (r: &'a str)
    ensures
        value matches Some(v) ==> r == v,
        value is None ==> r@ == "Unknown"@,
{
    match value {
        Some(v) => v,
        None => "Unknown",
    }
}

} // verus!
