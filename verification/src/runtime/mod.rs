//! Luau source of the runtime support library that compiled code uses.

use vstd::prelude::*;
use crate::text::paths::occurs_in;

pub mod actor;
pub mod diagnostics;
pub mod tracing;
pub mod debug;
pub mod debugger;
pub mod future;
pub mod helpers;
pub mod instance;
pub mod networking;
pub mod optimized;
pub mod parallel;

verus! {

/// Luau source returned by `generate_pool_helpers`.
pub const POOL_HELPERS_SRC: &'static str = "-- Object pooling system\nRobloxRS.Pool = {}\n\nfunction RobloxRS.Pool.new(objectType, initialSize, factory)\n    local pool = {\n        available = {},\n        allocated = 0,\n        objectType = objectType,\n        factory = factory or function() return Instance.new(objectType) end\n    }\n    \n    -- Pre-allocate initial pool size\n    if initialSize and initialSize > 0 then\n        for i = 1, initialSize do\n            table.insert(pool.available, pool.factory())\n            pool.allocated = pool.allocated + 1\n        end\n    end\n    \n    function pool:get()\n        if #self.available > 0 then\n            return table.remove(self.available)\n        else\n            self.allocated = self.allocated + 1\n            return self.factory()\n        end\n    end\n    \n    function pool:release(object)\n        if typeof(object) == \"Instance\" and object.ClassName == self.objectType then\n            -- Reset properties to default state\n            object.Parent = nil\n            table.insert(self.available, object)\n        end\n    end\n    \n    function pool:stats()\n        return {\n            available = #self.available,\n            allocated = self.allocated,\n            active = self.allocated - #self.available\n        }\n    end\n    \n    return pool\nend";

/// Generate object pooling system
pub fn generate_pool_helpers() -> (r: String)
    ensures
        r@ == POOL_HELPERS_SRC@,
{
    String::from_str(POOL_HELPERS_SRC)
}

/// Luau source returned by `generate_parallel_helpers`.
pub const PARALLEL_HELPERS_SRC: &'static str = "-- Parallel execution helpers\nRobloxRS.Parallel = {}\n\nfunction RobloxRS.Parallel.forEach(array, callback)\n    -- Create multiple threads using coroutines\n    local threads = {}\n    local results = {}\n    local maxBatchSize = 20  -- Balance between parallelism and overhead\n    \n    local function processRange(start, finish)\n        for i = start, finish do\n            results[i] = callback(array[i], i)\n        end\n    end\n    \n    local batchSize = math.ceil(#array / maxBatchSize)\n    for i = 1, #array, batchSize do\n        local endIndex = math.min(i + batchSize - 1, #array)\n        table.insert(threads, coroutine.create(function() \n            processRange(i, endIndex)\n        end))\n    end\n    \n    -- Run all threads\n    for _, thread in ipairs(threads) do\n        coroutine.resume(thread)\n    end\n    \n    -- Wait for all threads to complete\n    local allDone = false\n    while not allDone do\n        allDone = true\n        for _, thread in ipairs(threads) do\n            if coroutine.status(thread) ~= \"dead\" then\n                allDone = false\n                break\n            end\n        end\n        if not allDone then\n            task.wait()\n        end\n    end\n    \n    return results\nend\n\nfunction RobloxRS.Parallel.map(array, transformer)\n    return RobloxRS.Parallel.forEach(array, transformer)\nend\n\nfunction RobloxRS.Parallel.filter(array, predicate)\n    local results = RobloxRS.Parallel.forEach(array, function(item, index)\n        if predicate(item, index) then\n            return item\n        else\n            return nil\n        end\n    end)\n    \n    -- Compact the results\n    local compacted = {}\n    for _, item in pairs(results) do\n        if item ~= nil then\n            table.insert(compacted, item)\n        end\n    end\n    \n    return compacted\nend";

/// Generate parallel execution helpers
pub fn generate_parallel_helpers() -> (r: String)
    ensures
        r@ == PARALLEL_HELPERS_SRC@,
{
    String::from_str(PARALLEL_HELPERS_SRC)
}

/// Luau source returned by `generate_debug_helpers`.
pub const DEBUG_HELPERS_SRC: &'static str = "-- Advanced debugging helpers\nRobloxRS.Debug = {}\n\nRobloxRS.Debug.callStack = {}\n\nfunction RobloxRS.Debug.traceCall(functionName, args)\n    local info = debug.info(2, \"sl\")\n    table.insert(RobloxRS.Debug.callStack, {\n        name = functionName,\n        args = args,\n        line = info.currentline,\n        source = info.source,\n        time = os.clock()\n    })\n    \n    if #RobloxRS.Debug.callStack > 100 then\n        table.remove(RobloxRS.Debug.callStack, 1)\n    end\nend\n\nfunction RobloxRS.Debug.getCallStack()\n    return RobloxRS.Debug.callStack\nend";

/// Generate advanced debugging helpers
pub fn generate_debug_helpers() -> (r: String)
    ensures
        r@ == DEBUG_HELPERS_SRC@,
{
    String::from_str(DEBUG_HELPERS_SRC)
}

/// Luau source returned by `generate_result_type`.
pub const RESULT_TYPE_SRC: &'static str = "-- Type utilities\nRobloxRS.Result = {}";

/// Generate result type
pub fn generate_result_type() -> (r: String)
    ensures
        r@ == RESULT_TYPE_SRC@,
{
    String::from_str(RESULT_TYPE_SRC)
}

/// Luau source returned by `generate_result_ok`.
pub const RESULT_OK_SRC: &'static str = "function RobloxRS.Result.Ok(value)\n    return {\n        ok = true,\n        value = value,\n        error = nil,\n        \n        unwrap = function(self)\n            return self.value\n        end,\n        \n        unwrapOr = function(self, default)\n            return self.value\n        end,\n        \n        map = function(self, fn)\n            return RobloxRS.Result.Ok(fn(self.value))\n        end,\n        \n        andThen = function(self, fn)\n            return fn(self.value)\n        end\n    }\nend";

/// Generate result ok
pub fn generate_result_ok() -> (r: String)
    ensures
        r@ == RESULT_OK_SRC@,
{
    String::from_str(RESULT_OK_SRC)
}

/// Luau source returned by `generate_result_err`.
pub const RESULT_ERR_SRC: &'static str = "function RobloxRS.Result.Err(error)\n    return {\n        ok = false,\n        value = nil,\n        error = error,\n        \n        unwrap = function(self)\n            error(self.error or \"Called unwrap on an Err value\")\n        end,\n        \n        unwrapOr = function(self, default)\n            return default\n        end,\n        \n        map = function(self, fn)\n            return self -- No-op for Err\n        end,\n        \n        andThen = function(self, fn)\n            return self -- No-op for Err\n        end\n    }\nend";

/// Generate result err
pub fn generate_result_err() -> (r: String)
    ensures
        r@ == RESULT_ERR_SRC@,
{
    String::from_str(RESULT_ERR_SRC)
}

/// Luau source returned by `generate_table_utils`.
pub const TABLE_UTILS_SRC: &'static str = "RobloxRS.Table = {}\n\nfunction RobloxRS.Table.deepCopy(original)\n    local copy\n    if type(original) == \"table\" then\n        copy = {}\n        for key, value in pairs(original) do\n            copy[key] = RobloxRS.Table.deepCopy(value)\n        end\n    else\n        copy = original\n    end\n    return copy\nend";

/// Generate table utilities
pub fn generate_table_utils() -> (r: String)
    ensures
        r@ == TABLE_UTILS_SRC@,
{
    String::from_str(TABLE_UTILS_SRC)
}

/// Luau source returned by `generate_vector_helpers`.
pub const VECTOR_HELPERS_SRC: &'static str = "RobloxRS.Vector = {}\n\nfunction RobloxRS.Vector.fromTuple(x, y, z)\n    return Vector3.new(x, y, z)\nend\n\nfunction RobloxRS.Vector.toTuple(vector)\n    return vector.X, vector.Y, vector.Z\nend";

/// Generate vector helpers
pub fn generate_vector_helpers() -> (r: String)
    ensures
        r@ == VECTOR_HELPERS_SRC@,
{
    String::from_str(VECTOR_HELPERS_SRC)
}

/// Luau source returned by `generate_color_helpers`.
pub const COLOR_HELPERS_SRC: &'static str = "RobloxRS.Color = {}\n\nfunction RobloxRS.Color.fromRGB(r, g, b)\n    return Color3.fromRGB(r, g, b)\nend\n\nfunction RobloxRS.Color.toRGB(color)\n    return math.floor(color.R * 255 + 0.5), math.floor(color.G * 255 + 0.5), math.floor(color.B * 255 + 0.5)\nend";

/// Generate color helpers
pub fn generate_color_helpers() -> (r: String)
    ensures
        r@ == COLOR_HELPERS_SRC@,
{
    String::from_str(COLOR_HELPERS_SRC)
}

/// Luau source returned by `clear_call_stack`.
pub const CLEAR_CALL_STACK_SRC: &'static str = "function RobloxRS.Debug.clearCallStack()\n    RobloxRS.Debug.callStack = {}\nend";

/// Clear call stack function implementation
pub fn clear_call_stack() -> (r: String)
    ensures
        r@ == CLEAR_CALL_STACK_SRC@,
{
    String::from_str(CLEAR_CALL_STACK_SRC)
}

/// Luau source returned by `generate_profiler`.
pub const PROFILER_SRC: &'static str = "RobloxRS.Profiler = {}\n\nRobloxRS.Profiler.active = false\nRobloxRS.Profiler.profiles = {}";

/// Performance profiling
pub fn generate_profiler() -> (r: String)
    ensures
        r@ == PROFILER_SRC@,
{
    String::from_str(PROFILER_SRC)
}

/// Luau source returned by `generate_profiler_functions`.
pub const PROFILER_FUNCTIONS_SRC: &'static str = "function RobloxRS.Profiler.start(name)\n    if not RobloxRS.Profiler.active then return end\n    \n    RobloxRS.Profiler.profiles[name] = RobloxRS.Profiler.profiles[name] or {\n        calls = 0,\n        totalTime = 0,\n        startTimes = {}\n    }\n    \n    local profileData = RobloxRS.Profiler.profiles[name]\n    profileData.calls = profileData.calls + 1\n    profileData.startTimes[profileData.calls] = os.clock()\nend";

/// Profiler start function
pub fn generate_profiler_functions() -> (r: String)
    ensures
        r@ == PROFILER_FUNCTIONS_SRC@,
{
    String::from_str(PROFILER_FUNCTIONS_SRC)
}

/// Luau source returned by `generate_profiler_stop`.
pub const PROFILER_STOP_SRC: &'static str = "function RobloxRS.Profiler.stop(name)\n    if not RobloxRS.Profiler.active then return end\n    if not RobloxRS.Profiler.profiles[name] then return end\n    \n    local profileData = RobloxRS.Profiler.profiles[name]\n    local startTime = profileData.startTimes[profileData.calls]\n    if not startTime then return end\n    \n    local elapsed = os.clock() - startTime\n    profileData.totalTime = profileData.totalTime + elapsed\n    profileData.startTimes[profileData.calls] = nil\nend";

/// Profiler stop function
pub fn generate_profiler_stop() -> (r: String)
    ensures
        r@ == PROFILER_STOP_SRC@,
{
    String::from_str(PROFILER_STOP_SRC)
}

/// Luau source returned by `generate_memory_allocation_tracking`.
pub const MEMORY_TRACKING_SRC: &'static str = "function RobloxRS.Memory.trackAllocation(id, size, type)\n    RobloxRS.Memory.allocations[id] = {\n        size = size or 1,\n        type = type or \"unknown\"\n    }\n    \n    RobloxRS.Memory.stats.totalAllocated = RobloxRS.Memory.stats.totalAllocated + (size or 1)\n    RobloxRS.Memory.stats.currentUsage = RobloxRS.Memory.stats.currentUsage + (size or 1)\n    \n    if RobloxRS.Memory.stats.currentUsage > RobloxRS.Memory.stats.peakUsage then\n        RobloxRS.Memory.stats.peakUsage = RobloxRS.Memory.stats.currentUsage\n    end\nend\n\nfunction RobloxRS.Memory.releaseAllocation(id)\n    local allocation = RobloxRS.Memory.allocations[id]\n    if not allocation then return end\n    \n    RobloxRS.Memory.stats.currentUsage = RobloxRS.Memory.stats.currentUsage - allocation.size\n    RobloxRS.Memory.allocations[id] = nil\nend\n\nfunction RobloxRS.Memory.getStats()\n    return {\n        totalAllocated = RobloxRS.Memory.stats.totalAllocated,\n        currentUsage = RobloxRS.Memory.stats.currentUsage,\n        peakUsage = RobloxRS.Memory.stats.peakUsage\n    }\nend";

/// Memory allocation tracking implementation
pub fn generate_memory_allocation_tracking() -> (r: String)
    ensures
        r@ == MEMORY_TRACKING_SRC@,
{
    String::from_str(MEMORY_TRACKING_SRC)
}

/// The text of `generate_actor_system`: the actor system, the actor trait
/// and the async layer, each bound to a field of `RobloxRS`.
pub open spec fn actor_system_text() -> Seq<char> {
    "-- RobloxRS Actor System\nRobloxRS.Actors = "@ + actor::ACTOR_SYSTEM_SRC@
        + "\n-- Actor Trait for Rust compatibility\nRobloxRS.ActorTrait = "@
        + actor::ACTOR_TRAIT_SRC@ + "\n-- Async compatibility layer\nRobloxRS.Async = "@
        + actor::ASYNC_COMPAT_SRC@
}

/// Generate the actor system
pub fn generate_actor_system() -> (r: String)
    ensures
        r@ == actor_system_text(),
{
    let mut s = String::from_str("-- RobloxRS Actor System\nRobloxRS.Actors = ");
    s.append(actor::generate_actor_system().as_str());
    s.append("\n-- Actor Trait for Rust compatibility\nRobloxRS.ActorTrait = ");
    s.append(actor::generate_actor_trait().as_str());
    s.append("\n-- Async compatibility layer\nRobloxRS.Async = ");
    s.append(actor::generate_async_compatibility().as_str());
    s
}

/// Generate the Roblox Instance interaction library
pub fn generate_instance_lib() -> (r: String)
    ensures
        r@ == instance::INSTANCE_LIB_SRC@,
{
    instance::generate_instance_lib()
}

/// The text of `generate_networking_lib`: the four networking modules,
/// separated by line breaks.
pub open spec fn networking_text() -> Seq<char> {
    networking::NETWORKING_LIB_SRC@ + "\n"@ + networking::POLLING_LIB_SRC@ + "\n"@
        + networking::RPC_LIB_SRC@ + "\n"@ + networking::MIDDLEWARE_LIB_SRC@
}

/// Generate the Roblox networking library with optimized buffer packing and event system
pub fn generate_networking_lib() -> (r: String)
    ensures
        r@ == networking_text(),
{
    let mut s = networking::generate_networking_lib();
    s.append("\n");
    s.append(networking::generate_polling_lib().as_str());
    s.append("\n");
    s.append(networking::generate_rpc_lib().as_str());
    s.append("\n");
    s.append(networking::generate_middleware_lib().as_str());
    s
}

/// The text of `generate_runtime_lib`: the runtime's modules, separated by
/// line breaks.
pub open spec fn runtime_lib_text() -> Seq<char> {
    POOL_HELPERS_SRC@ + "\n"@ + PARALLEL_HELPERS_SRC@ + "\n"@ + DEBUG_HELPERS_SRC@ + "\n"@
        + debug::DEBUG_TRACER_SRC@ + "\n"@ + debugger::DEBUGGER_SRC@ + "\n"@
        + future::FUTURE_LIB_SRC@ + "\n"@ + RESULT_TYPE_SRC@ + "\n"@ + RESULT_OK_SRC@ + "\n"@
        + RESULT_ERR_SRC@ + "\n"@ + TABLE_UTILS_SRC@ + "\n"@ + VECTOR_HELPERS_SRC@ + "\n"@
        + COLOR_HELPERS_SRC@ + "\n"@ + actor_system_text() + "\n"@ + instance::INSTANCE_LIB_SRC@
        + "\n"@ + networking_text()
}

/// The runtime library opens with the object pools, the parallel helpers
/// and the debugging helpers, one line apart.
#[verifier::rlimit(60)]
pub proof fn lemma_runtime_lib_front()
    ensures
        runtime_lib_text().take((POOL_HELPERS_SRC@.len() + 1 + PARALLEL_HELPERS_SRC@.len() + 1
            + DEBUG_HELPERS_SRC@.len()) as int) == POOL_HELPERS_SRC@ + "\n"@ + PARALLEL_HELPERS_SRC@ + "\n"@
            + DEBUG_HELPERS_SRC@,
{
    reveal_strlit("\n");
    let front = POOL_HELPERS_SRC@ + "\n"@ + PARALLEL_HELPERS_SRC@ + "\n"@ + DEBUG_HELPERS_SRC@;
    assert(runtime_lib_text().take(front.len() as int) =~= front);
}

/// `part` occurs in any text that has it between two others.
proof fn lemma_part_between(pre: Seq<char>, part: Seq<char>, post: Seq<char>)
    ensures
        occurs_in(part, pre + part + post),
{
    let i = pre.len() as int;
    assert((pre + part + post).subrange(i, i + part.len()) =~= part);
}

/// The runtime module holds its opening, its object pools, its parallel
/// helpers and its debugging helpers.
pub proof fn lemma_runtime_sections()
    ensures
        occurs_in(RUNTIME_BANNER@, runtime_module_text()),
        occurs_in(POOL_HELPERS_SRC@, runtime_module_text()),
        occurs_in(PARALLEL_HELPERS_SRC@, runtime_module_text()),
        occurs_in(DEBUG_HELPERS_SRC@, runtime_module_text()),
{
    reveal_strlit("\n");
    lemma_runtime_lib_front();
    let rt = runtime_module_text();
    let lib = runtime_lib_text();
    let nl = "\n"@;
    let pool = POOL_HELPERS_SRC@;
    let par = PARALLEL_HELPERS_SRC@;
    let dbg = DEBUG_HELPERS_SRC@;
    let k = (pool.len() + 1 + par.len() + 1 + dbg.len()) as int;
    let rest = lib.skip(k);
    assert(lib =~= lib.take(k) + rest);
    let ban = RUNTIME_BANNER@;
    assert(rt == ban + lib);
    lemma_part_between(Seq::empty(), ban, lib);
    assert(Seq::<char>::empty() + ban + lib =~= rt);
    lemma_part_between(ban, pool, nl + par + nl + dbg + rest);
    assert(ban + pool + (nl + par + nl + dbg + rest) =~= rt);
    lemma_part_between(ban + pool + nl, par, nl + dbg + rest);
    assert(ban + pool + nl + par + (nl + dbg + rest) =~= rt);
    lemma_part_between(ban + pool + nl + par + nl, dbg, rest);
    assert(ban + pool + nl + par + nl + dbg + rest =~= rt);
}

/// Generate the runtime helper library as a Luau module
pub fn generate_runtime_lib() -> (r: String)
    ensures
        r@ == runtime_lib_text(),
{
    let mut s = generate_pool_helpers();
    s.append("\n");
    s.append(generate_parallel_helpers().as_str());
    s.append("\n");
    s.append(generate_debug_helpers().as_str());
    s.append("\n");
    s.append(debug::generate_debug_tracer().as_str());
    s.append("\n");
    s.append(debugger::generate_debugger().as_str());
    s.append("\n");
    s.append(future::generate_future_lib().as_str());
    s.append("\n");
    s.append(generate_result_type().as_str());
    s.append("\n");
    s.append(generate_result_ok().as_str());
    s.append("\n");
    s.append(generate_result_err().as_str());
    s.append("\n");
    s.append(generate_table_utils().as_str());
    s.append("\n");
    s.append(generate_vector_helpers().as_str());
    s.append("\n");
    s.append(generate_color_helpers().as_str());
    s.append("\n");
    s.append(generate_actor_system().as_str());
    s.append("\n");
    s.append(generate_instance_lib().as_str());
    s.append("\n");
    s.append(generate_networking_lib().as_str());
    s
}

/// The banner that opens the runtime module: it declares the `RobloxRS`
/// table the helpers fill.
pub const RUNTIME_BANNER: &'static str = "-- RobloxRS Runtime Library\n\nRobloxRS = {}\n\n";

/// The text of the runtime module: the banner, then the runtime library.
pub open spec fn runtime_module_text() -> Seq<char> {
    RUNTIME_BANNER@ + runtime_lib_text()
}

/// The runtime module that compiled code and places link against.
pub fn generate_runtime_module() -> (r: String)
    ensures
        r@ == runtime_module_text(),
{
    let mut s = String::from_str(RUNTIME_BANNER);
    s.append(generate_runtime_lib().as_str());
    s
}

/// Create runtime diagnostics: the standalone runtime library.
pub fn generate_runtime_diagnostics() -> (r: String)
    ensures
        r@ == helpers::RUNTIME_LIB_SRC@,
{
    helpers::generate_runtime_lib()
}

} // verus!
