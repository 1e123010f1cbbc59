//! An inventory of the replay framework's exported surface: every C
//! symbol and Objective-C class the framework exports, with how its
//! signature or shape was established.

use vstd::prelude::*;

verus! {

/// Whether an export is a C symbol or an Objective-C class.
#[derive(Debug, Clone, Copy, PartialEq, Eq, Structural)]
pub enum SymbolKind {
    /// A C function or data symbol.
    CSymbol,
    /// An Objective-C class.
    ObjcClass,
}

/// How far an export's signature or shape is established.
#[derive(Debug, Clone, Copy, PartialEq, Eq, Structural)]
pub enum Status {
    /// Read from disassembly or the live runtime.
    Established,
    /// Not yet confirmed.
    Unverified,
}

/// One exported symbol and what is known of it.
#[derive(Debug, Clone, Copy)]
pub struct Symbol {
    /// The exported name.
    pub name: &'static str,
    /// C symbol or Objective-C class.
    pub kind: SymbolKind,
    /// How far it is established.
    pub status: Status,
    /// How it was established.
    pub notes: &'static str,
}

/// The number of exports the inventory lists.
pub const EXPORT_COUNT: usize = 31;

/// The inventory: every export of the framework, the C symbols, then the
/// classes.
pub open spec fn spec_exports() -> Seq<Symbol> {
    seq![
        Symbol {
            name: "GTHarvesterGetData",
            kind: SymbolKind::CSymbol,
            status: Status::Established,
            notes: "harvester data getter; BEHAVIOR CONFIRMED live (round-trip test the_harvester_getters_parse_a_synthetic_capture_block): returns block+metadataSize (the payload after the metadata). Dossier 02.",
        },
        Symbol {
            name: "GTHarvesterGetMetadata",
            kind: SymbolKind::CSymbol,
            status: Status::Established,
            notes: "harvester metadata getter; BEHAVIOR CONFIRMED live: validates magic+size, returns the block (rejects too-small/bad-magic). Dossier 02.",
        },
        Symbol {
            name: "GTHarvesterGetTexturePlane",
            kind: SymbolKind::CSymbol,
            status: Status::Established,
            notes: "harvester plane getter; BEHAVIOR CONFIRMED live: returns block+0x18+index*0x30. Dossier 02.",
        },
        Symbol {
            name: "GTHarvesterGetTexturePlaneCount",
            kind: SymbolKind::CSymbol,
            status: Status::Established,
            notes: "harvester plane-count getter; BEHAVIOR CONFIRMED live: returns [block+0x10] for a texture block. Dossier 02.",
        },
        Symbol {
            name: "GTMTLReplayClient_createNewTransport",
            kind: SymbolKind::CSymbol,
            status: Status::Established,
            notes: "signature established (ipsw @ 0x24f8d5144): 1 arg (mov x23,x0, the client). Opens the NSXPC transport to the entitled service (obsolete path, dossier 06); signature is a fact regardless.",
        },
        Symbol {
            name: "GTMTLReplayClient_destroyNewTransport",
            kind: SymbolKind::CSymbol,
            status: Status::Established,
            notes: "signature established (ipsw @ 0x24f8d5518): 0 args - releases and nulls the singleton _connection global (0x276aae000+0xf40); reads no incoming argument. Dossier 06.",
        },
        Symbol {
            name: "GTMTLReplayClient_init",
            kind: SymbolKind::CSymbol,
            status: Status::Established,
            notes: "two args (out-buffer, pool); prologue never reads x2-x4; see ffi",
        },
        Symbol {
            name: "GTMTLReplayClient_preferDevice",
            kind: SymbolKind::CSymbol,
            status: Status::Unverified,
            notes: "signature established (1 arg, the client, void); LIVE AUDIT 2026-09-01 = DEAD END in-process: faults because [client+0x30] is null on the initWithContext: client (fed to getObject); needs the transport-path client. OUT-OF-PROCESS also blocked: createNewTransport crashes in our unentitled process (SIGSEGV in its own apr_pool_create_ex before reaching the XPC connection); the path works only via the entitled gpudebug. Behavior already established statically, so this is a resolved dead end. Dossier 06.",
        },
        Symbol {
            name: "GTMTLReplayController_init",
            kind: SymbolKind::CSymbol,
            status: Status::Established,
            notes: "one arg (pool); read off GPUToolsReplayService; see ffi",
        },
        Symbol {
            name: "GTMTLReplayController_playAll",
            kind: SymbolKind::CSymbol,
            status: Status::Established,
            notes: "1 arg (controller); signature from framework disassembly, dossier 01; see ffi",
        },
        Symbol {
            name: "GTMTLReplayController_playTo",
            kind: SymbolKind::CSymbol,
            status: Status::Established,
            notes: "2 args (controller, uint32 target index); signature from framework disassembly, dossier 01; best hypothesis for coverage gaps; see ffi",
        },
        Symbol {
            name: "GTMTLReplayController_rewind",
            kind: SymbolKind::CSymbol,
            status: Status::Established,
            notes: "1 arg (controller); signature from framework disassembly, dossier 01; see ffi",
        },
        Symbol {
            name: "GTMTLReplayErrorHandling_initWithObserver",
            kind: SymbolKind::CSymbol,
            status: Status::Established,
            notes: "one arg, object answering -notifyError:; see ffi",
        },
        Symbol {
            name: "GTMTLReplayHost_generateDerivedDataPayload",
            kind: SymbolKind::CSymbol,
            status: Status::Established,
            notes: "signature established from the prologue (ipsw disass @ 0x24f88e270): 2 args (mov x21,x1 / mov x23,x0; no x2+ read). Generates profiler derived-data payload. Dossier 04.",
        },
        Symbol {
            name: "GTMTLReplay_CLI",
            kind: SymbolKind::CSymbol,
            status: Status::Established,
            notes: "signature established from the prologue (@ 0x24f8c5ba4): 3 args (x0 stored, x1->x22, x2->x20). A CLI entry point. Dossier 06.",
        },
        Symbol {
            name: "GTMTLReplay_fillError",
            kind: SymbolKind::CSymbol,
            status: Status::Established,
            notes: "signature established from the prologue (@ 0x24f8918d8): 3 args (out NSError** x0, then x1/x2 to _MakeNSError; result stored at *x0). Dossier 06.",
        },
        Symbol {
            name: "GTMTLReplay_handleError",
            kind: SymbolKind::CSymbol,
            status: Status::Established,
            notes: "signature established from the prologue (@ 0x24f890bd4): 6 args (x0..x5 all saved before use). Error handler. Dossier 06.",
        },
        Symbol {
            name: "GT_ENV",
            kind: SymbolKind::CSymbol,
            status: Status::Established,
            notes: "the framework global config/env table (DATA symbol); BEHAVIOR CONFIRMED live (probes/run.sh gtenv): config word at GT_ENV+0x30 is 0 before GTMTLReplayController_init and populated after, with bit 11 set from MTLREPLAYER_FORCE_RESOURCES_RESIDENT=1. Dossier 06.",
        },
        Symbol {
            name: "GTGPUAPSConfig",
            kind: SymbolKind::ObjcClass,
            status: Status::Established,
            notes: "GPU performance/tracing config; shape fully described by the live runtime (2026-09-01), instanceSize 200: duration, pulsePeriod, tileTracing, countPeriod, eslInstTracing, cliqueTraceLevel, toDictionary. Role from selectors (profiler surface, dossier 04); not behavior-probed. Dossier 06.",
        },
        Symbol {
            name: "GTMTLReplayService",
            kind: SymbolKind::ObjcClass,
            status: Status::Established,
            notes: "-initWithContext:, -load:error: (NSURL), -fetch:; HANDOFF 2.2/2.4",
        },
        Symbol {
            name: "GTMTLTextureRenderEncoder",
            kind: SymbolKind::ObjcClass,
            status: Status::Established,
            notes: "command encoder for GTMTLTextureRenderer; shape fully described by the live runtime (2026-09-01), instanceSize 32: drawTexture:/drawOverlay:/setTransform:/setBounds:/submitCommand. Dossier 06.",
        },
        Symbol {
            name: "GTMTLTextureRenderer",
            kind: SymbolKind::ObjcClass,
            status: Status::Established,
            notes: "texture-to-view preview renderer; shape fully described by the live runtime (2026-09-01), instanceSize 64: initWithDevice:, render:withEncoder:withFormat:renderTargetSize:viewContentsScale:, renderTexture:/renderOverlay: with CATransform3D/CGRect. Role from selectors; not behavior-probed. Dossier 06.",
        },
        Symbol {
            name: "GTMutableShaderProfilerStreamData",
            kind: SymbolKind::ObjcClass,
            status: Status::Established,
            notes: "shader-profiler trace stream (BUILDER side); shape fully described by the live runtime, instanceSize 352: addString:/addCommandBuffers:count:/addEncoders:count:/addGPUCommands:count:/addPipelineStates:count:/addShaderFunctionInfo:count:/addAPSData:/addPipelinePerformanceStatisticsData:. Role from selectors. Dossier 04.",
        },
        Symbol {
            name: "GTReplayDecodeGenericAccelerationStructure",
            kind: SymbolKind::ObjcClass,
            status: Status::Established,
            notes: "accel-structure decode request; live runtime: instanceSize 32, setStreamRef:(Q)+setDispatchUID: fetch-request shape identical to GTReplayFetchTexture's base. Pinned by regression test. Live fetch not yet run.",
        },
        Symbol {
            name: "GTReplayFetchAccelerationStructure",
            kind: SymbolKind::ObjcClass,
            status: Status::Established,
            notes: "accel-structure fetch, new in 27 SDK, BEHAVIOR CONFIRMED live (dossier 05) on a purpose-built raytracing capture: per-resource streamRef-keyed (texture info layout, 0x08=streamRef), reply data is RAW accel-structure bytes (not a nested archive). Shape pinned by regression test.",
        },
        Symbol {
            name: "GTReplayFetchPipelineBinaries",
            kind: SymbolKind::ObjcClass,
            status: Status::Established,
            notes: "pipeline-binaries fetch, BEHAVIOR CONFIRMED live on corpus (dossier 03): same bplist unknown/info/data reply, 80-byte info records, requested streamRef is a command-stream threshold (cumulative reply), each payload a nested bplist of compiled vertex/fragment Mach-O binaries + PerformanceStatistics. Shape pinned by regression test.",
        },
        Symbol {
            name: "GTReplayFetchTexture",
            kind: SymbolKind::ObjcClass,
            status: Status::Established,
            notes: "fully described by the runtime, instanceSize 128; HANDOFF 2.4",
        },
        Symbol {
            name: "GTReplayUnarchiver",
            kind: SymbolKind::ObjcClass,
            status: Status::Established,
            notes: "shape fully described by the live runtime: instanceSize 8, NO own methods (a thin NSObject subclass/wrapper). The runtime description is complete; its role beyond the empty shell is not established (no distinguishing selectors to probe). Dossier 00.",
        },
        Symbol {
            name: "GTShaderProfilerBinaryAnalysisResult",
            kind: SymbolKind::ObjcClass,
            status: Status::Established,
            notes: "compiled-shader instruction analysis; shape fully described by the live runtime, instanceSize 328: instructions ({IIQQIICCS} per instr)/instructionCount/clauses ({QQIIII})/binaryRanges/binaryLocations ({IIII})/stringAtIndex:. Role from selectors. Dossier 04.",
        },
        Symbol {
            name: "GTShaderProfilerStreamData",
            kind: SymbolKind::ObjcClass,
            status: Status::Established,
            notes: "shader-profiler trace stream (READ side); shape fully described by the live runtime (2026-09-01), instanceSize 344: deviceInfo/version/strings/traceName/pipelineStates/encoders/GPUCommandInfoFromFunctionIndex:subCommandIndex:/encode:error:, NSCoding. Selectors reveal record types (encoders {QQQIIII}, GPU commands {IIIIQIi}). Role from selectors. Dossier 04.",
        },
        Symbol {
            name: "GTTransportMessage_replayer",
            kind: SymbolKind::ObjcClass,
            status: Status::Established,
            notes: "XPC transport message; shape fully described by the live runtime, instanceSize 72: transport/payload/kind/serial/attributes/attributeForKey:/boolForKey:/doubleForKey:. Dossier 06.",
        },
    ]
}

/// The inventory (see [`spec_exports`]).
pub fn exports() -> (r: Vec<Symbol>)
    ensures
        r@ == spec_exports(),
{
    let v = vec![
        Symbol {
            name: "GTHarvesterGetData",
            kind: SymbolKind::CSymbol,
            status: Status::Established,
            notes: "harvester data getter; BEHAVIOR CONFIRMED live (round-trip test the_harvester_getters_parse_a_synthetic_capture_block): returns block+metadataSize (the payload after the metadata). Dossier 02.",
        },
        Symbol {
            name: "GTHarvesterGetMetadata",
            kind: SymbolKind::CSymbol,
            status: Status::Established,
            notes: "harvester metadata getter; BEHAVIOR CONFIRMED live: validates magic+size, returns the block (rejects too-small/bad-magic). Dossier 02.",
        },
        Symbol {
            name: "GTHarvesterGetTexturePlane",
            kind: SymbolKind::CSymbol,
            status: Status::Established,
            notes: "harvester plane getter; BEHAVIOR CONFIRMED live: returns block+0x18+index*0x30. Dossier 02.",
        },
        Symbol {
            name: "GTHarvesterGetTexturePlaneCount",
            kind: SymbolKind::CSymbol,
            status: Status::Established,
            notes: "harvester plane-count getter; BEHAVIOR CONFIRMED live: returns [block+0x10] for a texture block. Dossier 02.",
        },
        Symbol {
            name: "GTMTLReplayClient_createNewTransport",
            kind: SymbolKind::CSymbol,
            status: Status::Established,
            notes: "signature established (ipsw @ 0x24f8d5144): 1 arg (mov x23,x0, the client). Opens the NSXPC transport to the entitled service (obsolete path, dossier 06); signature is a fact regardless.",
        },
        Symbol {
            name: "GTMTLReplayClient_destroyNewTransport",
            kind: SymbolKind::CSymbol,
            status: Status::Established,
            notes: "signature established (ipsw @ 0x24f8d5518): 0 args - releases and nulls the singleton _connection global (0x276aae000+0xf40); reads no incoming argument. Dossier 06.",
        },
        Symbol {
            name: "GTMTLReplayClient_init",
            kind: SymbolKind::CSymbol,
            status: Status::Established,
            notes: "two args (out-buffer, pool); prologue never reads x2-x4; see ffi",
        },
        Symbol {
            name: "GTMTLReplayClient_preferDevice",
            kind: SymbolKind::CSymbol,
            status: Status::Unverified,
            notes: "signature established (1 arg, the client, void); LIVE AUDIT 2026-09-01 = DEAD END in-process: faults because [client+0x30] is null on the initWithContext: client (fed to getObject); needs the transport-path client. OUT-OF-PROCESS also blocked: createNewTransport crashes in our unentitled process (SIGSEGV in its own apr_pool_create_ex before reaching the XPC connection); the path works only via the entitled gpudebug. Behavior already established statically, so this is a resolved dead end. Dossier 06.",
        },
        Symbol {
            name: "GTMTLReplayController_init",
            kind: SymbolKind::CSymbol,
            status: Status::Established,
            notes: "one arg (pool); read off GPUToolsReplayService; see ffi",
        },
        Symbol {
            name: "GTMTLReplayController_playAll",
            kind: SymbolKind::CSymbol,
            status: Status::Established,
            notes: "1 arg (controller); signature from framework disassembly, dossier 01; see ffi",
        },
        Symbol {
            name: "GTMTLReplayController_playTo",
            kind: SymbolKind::CSymbol,
            status: Status::Established,
            notes: "2 args (controller, uint32 target index); signature from framework disassembly, dossier 01; best hypothesis for coverage gaps; see ffi",
        },
        Symbol {
            name: "GTMTLReplayController_rewind",
            kind: SymbolKind::CSymbol,
            status: Status::Established,
            notes: "1 arg (controller); signature from framework disassembly, dossier 01; see ffi",
        },
        Symbol {
            name: "GTMTLReplayErrorHandling_initWithObserver",
            kind: SymbolKind::CSymbol,
            status: Status::Established,
            notes: "one arg, object answering -notifyError:; see ffi",
        },
        Symbol {
            name: "GTMTLReplayHost_generateDerivedDataPayload",
            kind: SymbolKind::CSymbol,
            status: Status::Established,
            notes: "signature established from the prologue (ipsw disass @ 0x24f88e270): 2 args (mov x21,x1 / mov x23,x0; no x2+ read). Generates profiler derived-data payload. Dossier 04.",
        },
        Symbol {
            name: "GTMTLReplay_CLI",
            kind: SymbolKind::CSymbol,
            status: Status::Established,
            notes: "signature established from the prologue (@ 0x24f8c5ba4): 3 args (x0 stored, x1->x22, x2->x20). A CLI entry point. Dossier 06.",
        },
        Symbol {
            name: "GTMTLReplay_fillError",
            kind: SymbolKind::CSymbol,
            status: Status::Established,
            notes: "signature established from the prologue (@ 0x24f8918d8): 3 args (out NSError** x0, then x1/x2 to _MakeNSError; result stored at *x0). Dossier 06.",
        },
        Symbol {
            name: "GTMTLReplay_handleError",
            kind: SymbolKind::CSymbol,
            status: Status::Established,
            notes: "signature established from the prologue (@ 0x24f890bd4): 6 args (x0..x5 all saved before use). Error handler. Dossier 06.",
        },
        Symbol {
            name: "GT_ENV",
            kind: SymbolKind::CSymbol,
            status: Status::Established,
            notes: "the framework global config/env table (DATA symbol); BEHAVIOR CONFIRMED live (probes/run.sh gtenv): config word at GT_ENV+0x30 is 0 before GTMTLReplayController_init and populated after, with bit 11 set from MTLREPLAYER_FORCE_RESOURCES_RESIDENT=1. Dossier 06.",
        },
        Symbol {
            name: "GTGPUAPSConfig",
            kind: SymbolKind::ObjcClass,
            status: Status::Established,
            notes: "GPU performance/tracing config; shape fully described by the live runtime (2026-09-01), instanceSize 200: duration, pulsePeriod, tileTracing, countPeriod, eslInstTracing, cliqueTraceLevel, toDictionary. Role from selectors (profiler surface, dossier 04); not behavior-probed. Dossier 06.",
        },
        Symbol {
            name: "GTMTLReplayService",
            kind: SymbolKind::ObjcClass,
            status: Status::Established,
            notes: "-initWithContext:, -load:error: (NSURL), -fetch:; HANDOFF 2.2/2.4",
        },
        Symbol {
            name: "GTMTLTextureRenderEncoder",
            kind: SymbolKind::ObjcClass,
            status: Status::Established,
            notes: "command encoder for GTMTLTextureRenderer; shape fully described by the live runtime (2026-09-01), instanceSize 32: drawTexture:/drawOverlay:/setTransform:/setBounds:/submitCommand. Dossier 06.",
        },
        Symbol {
            name: "GTMTLTextureRenderer",
            kind: SymbolKind::ObjcClass,
            status: Status::Established,
            notes: "texture-to-view preview renderer; shape fully described by the live runtime (2026-09-01), instanceSize 64: initWithDevice:, render:withEncoder:withFormat:renderTargetSize:viewContentsScale:, renderTexture:/renderOverlay: with CATransform3D/CGRect. Role from selectors; not behavior-probed. Dossier 06.",
        },
        Symbol {
            name: "GTMutableShaderProfilerStreamData",
            kind: SymbolKind::ObjcClass,
            status: Status::Established,
            notes: "shader-profiler trace stream (BUILDER side); shape fully described by the live runtime, instanceSize 352: addString:/addCommandBuffers:count:/addEncoders:count:/addGPUCommands:count:/addPipelineStates:count:/addShaderFunctionInfo:count:/addAPSData:/addPipelinePerformanceStatisticsData:. Role from selectors. Dossier 04.",
        },
        Symbol {
            name: "GTReplayDecodeGenericAccelerationStructure",
            kind: SymbolKind::ObjcClass,
            status: Status::Established,
            notes: "accel-structure decode request; live runtime: instanceSize 32, setStreamRef:(Q)+setDispatchUID: fetch-request shape identical to GTReplayFetchTexture's base. Pinned by regression test. Live fetch not yet run.",
        },
        Symbol {
            name: "GTReplayFetchAccelerationStructure",
            kind: SymbolKind::ObjcClass,
            status: Status::Established,
            notes: "accel-structure fetch, new in 27 SDK, BEHAVIOR CONFIRMED live (dossier 05) on a purpose-built raytracing capture: per-resource streamRef-keyed (texture info layout, 0x08=streamRef), reply data is RAW accel-structure bytes (not a nested archive). Shape pinned by regression test.",
        },
        Symbol {
            name: "GTReplayFetchPipelineBinaries",
            kind: SymbolKind::ObjcClass,
            status: Status::Established,
            notes: "pipeline-binaries fetch, BEHAVIOR CONFIRMED live on corpus (dossier 03): same bplist unknown/info/data reply, 80-byte info records, requested streamRef is a command-stream threshold (cumulative reply), each payload a nested bplist of compiled vertex/fragment Mach-O binaries + PerformanceStatistics. Shape pinned by regression test.",
        },
        Symbol {
            name: "GTReplayFetchTexture",
            kind: SymbolKind::ObjcClass,
            status: Status::Established,
            notes: "fully described by the runtime, instanceSize 128; HANDOFF 2.4",
        },
        Symbol {
            name: "GTReplayUnarchiver",
            kind: SymbolKind::ObjcClass,
            status: Status::Established,
            notes: "shape fully described by the live runtime: instanceSize 8, NO own methods (a thin NSObject subclass/wrapper). The runtime description is complete; its role beyond the empty shell is not established (no distinguishing selectors to probe). Dossier 00.",
        },
        Symbol {
            name: "GTShaderProfilerBinaryAnalysisResult",
            kind: SymbolKind::ObjcClass,
            status: Status::Established,
            notes: "compiled-shader instruction analysis; shape fully described by the live runtime, instanceSize 328: instructions ({IIQQIICCS} per instr)/instructionCount/clauses ({QQIIII})/binaryRanges/binaryLocations ({IIII})/stringAtIndex:. Role from selectors. Dossier 04.",
        },
        Symbol {
            name: "GTShaderProfilerStreamData",
            kind: SymbolKind::ObjcClass,
            status: Status::Established,
            notes: "shader-profiler trace stream (READ side); shape fully described by the live runtime (2026-09-01), instanceSize 344: deviceInfo/version/strings/traceName/pipelineStates/encoders/GPUCommandInfoFromFunctionIndex:subCommandIndex:/encode:error:, NSCoding. Selectors reveal record types (encoders {QQQIIII}, GPU commands {IIIIQIi}). Role from selectors. Dossier 04.",
        },
        Symbol {
            name: "GTTransportMessage_replayer",
            kind: SymbolKind::ObjcClass,
            status: Status::Established,
            notes: "XPC transport message; shape fully described by the live runtime, instanceSize 72: transport/payload/kind/serial/attributes/attributeForKey:/boolForKey:/doubleForKey:. Dossier 06.",
        },
    ];
    assert(v@ =~= spec_exports());
    v
}

/// How many of `s` are established.
pub open spec fn established_count(s: Seq<Symbol>) -> nat
    decreases s.len(),
{
    if s.len() == 0 {
        0
    } else {
        established_count(s.drop_last()) + if s.last().status == Status::Established {
            1nat
        } else {
            0nat
        }
    }
}

proof fn lemma_established_prefix(k: int)
    requires
        0 <= k <= spec_exports().len(),
    ensures
        established_count(spec_exports().take(k)) == k - if k > 7 {
            1int
        } else {
            0int
        },
    decreases k,
{
    let s = spec_exports();
    if k == 0 {
        assert(s.take(0) =~= Seq::<Symbol>::empty());
    } else {
        lemma_established_prefix(k - 1);
        assert(s.take(k).drop_last() =~= s.take(k - 1));
    }
}

/// Every export but one is established.
pub proof fn lemma_established_count()
    ensures
        spec_exports().len() == EXPORT_COUNT,
        established_count(spec_exports()) == EXPORT_COUNT - 1,
{
    let s = spec_exports();
    lemma_established_prefix(s.len() as int);
    assert(s.take(s.len() as int) =~= s);
}

/// `(established, total)` over the inventory.
pub fn coverage() -> (r: (usize, usize))
    ensures
        r == (established_count(spec_exports()) as usize, spec_exports().len() as usize),
{
    let all = exports();
    let mut established: usize = 0;
    let mut i: usize = 0;
    while i < all.len()
        invariant
            all@ == spec_exports(),
            i <= all@.len(),
            established == established_count(all@.take(i as int)),
            established <= i,
        decreases all@.len() - i,
    {
        assert(all@.take(i as int + 1).drop_last() =~= all@.take(i as int));
        if all[i].status == Status::Established {
            established = established + 1;
        }
        i = i + 1;
    }
    assert(all@.take(all@.len() as int) =~= all@);
    (established, all.len())
}

} // verus!
