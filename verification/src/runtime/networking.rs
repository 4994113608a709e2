//! Networking support of the runtime: events, polling, RPC and middleware.

use vstd::prelude::*;

verus! {

/// Luau source returned by `generate_networking_lib`.
pub const NETWORKING_LIB_SRC: &'static str = r#"-- RobloxRS Networking Library
-- Provides high-performance, buffer-based networking with Rust-like API

RobloxRS.Net = {}
local Net = RobloxRS.Net

-- Internal state
local Events = {}
local ReliableEvents = {}
local BufferEvents = {}
local RemoteFolder = nil
local IsServer = game:GetService("RunService"):IsServer()
local Players = game:GetService("Players")
local HttpService = game:GetService("HttpService")

-- Buffer utilities for optimized networking
Net.Buffer = {
    -- Reusable buffers to reduce allocations
    _bufferPool = {},
    _poolSize = 0,
    _maxPoolSize = 100,
    
    -- Get a buffer from the pool or create a new one
    getBuffer = function()
        if Net.Buffer._poolSize > 0 then
            Net.Buffer._poolSize = Net.Buffer._poolSize - 1
            return table.remove(Net.Buffer._bufferPool)
        else
            return {}
        end
    end,
    
    -- Return a buffer to the pool
    releaseBuffer = function(buffer)
        if Net.Buffer._poolSize < Net.Buffer._maxPoolSize then
            table.clear(buffer)
            Net.Buffer._poolSize = Net.Buffer._poolSize + 1
            table.insert(Net.Buffer._bufferPool, buffer)
        end
    end,
    
    -- Create a new buffer
    new = function()
        return Net.Buffer.getBuffer()
    end,
    
    -- Write types to buffer with minimal overhead
    writeInt = function(buffer, value)
        table.insert(buffer, value)
    end,
    
    writeFloat = function(buffer, value)
        table.insert(buffer, value)
    end,
    
    writeString = function(buffer, value)
        table.insert(buffer, value)
    end,
    
    writeBoolean = function(buffer, value)
        table.insert(buffer, value)
    end,
    
    writeVector = function(buffer, value)
        table.insert(buffer, value.X)
        table.insert(buffer, value.Y)
        table.insert(buffer, value.Z)
    end,
    
    writeTable = function(buffer, value)
        table.insert(buffer, HttpService:JSONEncode(value))
    end,
    
    -- Read types from buffer
    readInt = function(buffer, index)
        return buffer[index], index + 1
    end,
    
    readFloat = function(buffer, index)
        return buffer[index], index + 1
    end,
    
    readString = function(buffer, index)
        return buffer[index], index + 1
    end,
    
    readBoolean = function(buffer, index)
        return buffer[index], index + 1
    end,
    
    readVector = function(buffer, index)
        local x = buffer[index]
        local y = buffer[index + 1]
        local z = buffer[index + 2]
        return Vector3.new(x, y, z), index + 3
    end,
    
    readTable = function(buffer, index)
        return HttpService:JSONDecode(buffer[index]), index + 1
    end
}

-- Schema validation
Net.Schema = {
    validate = function(schema, data, index)
        index = index or 1
        local result = {}
        
        for i, field in ipairs(schema) do
            local fieldName = field.name
            local fieldType = field.type
            
            if fieldType == "int" or fieldType == "float" then
                result[fieldName], index = Net.Buffer.readFloat(data, index)
            elseif fieldType == "string" then
                result[fieldName], index = Net.Buffer.readString(data, index)
            elseif fieldType == "boolean" then
                result[fieldName], index = Net.Buffer.readBoolean(data, index)
            elseif fieldType == "Vector3" then
                result[fieldName], index = Net.Buffer.readVector(data, index)
            elseif fieldType == "table" then
                result[fieldName], index = Net.Buffer.readTable(data, index)
            elseif fieldType == "array" then
                local arrayLength = data[index]
                index = index + 1
                local array = {}
                
                for j = 1, arrayLength do
                    local element
                    element, index = Net.Schema.validate({field.element}, data, index)
                    table.insert(array, element[1])
                end
                
                result[fieldName] = array
            elseif field.struct then
                result[fieldName], index = Net.Schema.validate(field.struct, data, index)
            end
        end
        
        return result, index
    end,
    
    pack = function(schema, data)
        local buffer = Net.Buffer.new()
        
        for _, field in ipairs(schema) do
            local fieldName = field.name
            local fieldType = field.type
            local value = data[fieldName]
            
            if fieldType == "int" then
                Net.Buffer.writeInt(buffer, value)
            elseif fieldType == "float" then
                Net.Buffer.writeFloat(buffer, value)
            elseif fieldType == "string" then
                Net.Buffer.writeString(buffer, value)
            elseif fieldType == "boolean" then
                Net.Buffer.writeBoolean(buffer, value)
            elseif fieldType == "Vector3" then
                Net.Buffer.writeVector(buffer, value)
            elseif fieldType == "table" then
                Net.Buffer.writeTable(buffer, value)
            elseif fieldType == "array" then
                Net.Buffer.writeInt(buffer, #value)
                
                for _, element in ipairs(value) do
                    local elementBuffer = Net.Schema.pack({field.element}, {[1] = element})
                    for _, v in ipairs(elementBuffer) do
                        table.insert(buffer, v)
                    end
                    Net.Buffer.releaseBuffer(elementBuffer)
                end
            elseif field.struct then
                local structBuffer = Net.Schema.pack(field.struct, value)
                for _, v in ipairs(structBuffer) do
                    table.insert(buffer, v)
                end
                Net.Buffer.releaseBuffer(structBuffer)
            end
        end
        
        return buffer
    end
}

-- Initialize the networking system
function Net.init()
    if IsServer then
        -- Create remote folder in ReplicatedStorage if it doesn't exist
        local ReplicatedStorage = game:GetService("ReplicatedStorage")
        RemoteFolder = ReplicatedStorage:FindFirstChild("__RobloxRS_Net")
        
        if not RemoteFolder then
            RemoteFolder = Instance.new("Folder")
            RemoteFolder.Name = "__RobloxRS_Net"
            RemoteFolder.Parent = ReplicatedStorage
        end
    else
        -- Wait for the remote folder on the client
        local ReplicatedStorage = game:GetService("ReplicatedStorage")
        RemoteFolder = ReplicatedStorage:WaitForChild("__RobloxRS_Net", 10)
        
        if not RemoteFolder then
            error("RobloxRS.Net: Failed to find remote folder after 10 seconds")
        end
    end
end

-- Create a new event channel
function Net.defineEvent(name, options)
    options = options or {}
    
    -- Default options
    local reliable = options.reliable ~= false
    local useBuffer = options.useBuffer ~= false
    local schema = options.schema
    
    if Events[name] then
        error("RobloxRS.Net: Event '" .. name .. "' already exists")
    end
    
    if IsServer then
        -- Create the remote event
        local remote = Instance.new("RemoteEvent")
        remote.Name = name
        remote.Parent = RemoteFolder
        
        Events[name] = {
            remote = remote,
            handlers = {},
            reliable = reliable,
            useBuffer = useBuffer,
            schema = schema
        }
        
        if reliable then
            ReliableEvents[name] = Events[name]
        end
        
        if useBuffer then
            BufferEvents[name] = Events[name]
        end
        
        -- Set up the event handler
        remote.OnServerEvent:Connect(function(player, ...)
            local args = {...}
            
            -- Apply schema validation if provided
            if schema and useBuffer then
                args = Net.Schema.validate(schema, args[1])
            end
            
            for _, handler in ipairs(Events[name].handlers) do
                task.spawn(function()
                    handler(player, unpack(args))
                end)
            end
        end)
    else
        -- Wait for the remote event
        local remote = RemoteFolder:WaitForChild(name, 10)
        
        if not remote then
            error("RobloxRS.Net: Failed to find remote event '" .. name .. "' after 10 seconds")
        end
        
        Events[name] = {
            remote = remote,
            handlers = {},
            reliable = reliable,
            useBuffer = useBuffer,
            schema = schema
        }
        
        if reliable then
            ReliableEvents[name] = Events[name]
        end
        
        if useBuffer then
            BufferEvents[name] = Events[name]
        end
        
        -- Set up the event handler
        remote.OnClientEvent:Connect(function(...)
            local args = {...}
            
            -- Apply schema validation if provided
            if schema and useBuffer then
                args = Net.Schema.validate(schema, args[1])
            end
            
            for _, handler in ipairs(Events[name].handlers) do
                task.spawn(function()
                    handler(unpack(args))
                end)
            end
        end)
    end
    
    -- Return an event object
    return {
        name = name,
        
        -- Listen for events
        on = function(self, callback)
            table.insert(Events[name].handlers, callback)
            return self
        end,
        
        -- Remove a listener
        off = function(self, callback)
            for i, handler in ipairs(Events[name].handlers) do
                if handler == callback then
                    table.remove(Events[name].handlers, i)
                    break
                end
            end
            return self
        end,
        
        -- Fire the event from server to client
        fire = function(self, target, ...)
            if not IsServer then
                error("RobloxRS.Net: Cannot fire event from client to a specific target")
            end
            
            local args = {...}
            local event = Events[name]
            
            if event.useBuffer and event.schema then
                -- Pack the data using the schema
                args = {Net.Schema.pack(event.schema, args[1])}
            end
            
            event.remote:FireClient(target, unpack(args))
            return self
        end,
        
        -- Fire the event to all clients
        fireAll = function(self, ...)
            if not IsServer then
                error("RobloxRS.Net: Cannot fire event from client to all clients")
            end
            
            local args = {...}
            local event = Events[name]
            
            if event.useBuffer and event.schema then
                -- Pack the data using the schema
                args = {Net.Schema.pack(event.schema, args[1])}
            end
            
            event.remote:FireAllClients(unpack(args))
            return self
        end,
        
        -- Fire the event from client to server
        fireServer = function(self, ...)
            if IsServer then
                error("RobloxRS.Net: Cannot fire event from server to server")
            end
            
            local args = {...}
            local event = Events[name]
            
            if event.useBuffer and event.schema then
                -- Pack the data using the schema
                args = {Net.Schema.pack(event.schema, args[1])}
            end
            
            event.remote:FireServer(unpack(args))
            return self
        end
    }
end"#;

/// Generate the networking library with buffer packing and remote events
pub fn generate_networking_lib() -> (r: String)
    ensures
        r@ == NETWORKING_LIB_SRC@,
{
    String::from_str(NETWORKING_LIB_SRC)
}

/// Luau source returned by `generate_polling_lib`.
pub const POLLING_LIB_SRC: &'static str = r#"-- RobloxRS Network Polling System
-- High-performance polling system inspired by Blink/Zap techniques

RobloxRS.Net.Polling = {}
local Polling = RobloxRS.Net.Polling

-- Internal state
local PollingEvents = {}
local PollingIntervals = {}
local NextPollId = 0

-- Create a new polling event
function Polling.create(options)
    options = options or {}
    
    local pollInterval = options.interval or 0.1
    local batchSize = options.batchSize or 10
    local priorityFunction = options.prioritize
    
    local pollId = "poll_" .. NextPollId
    NextPollId = NextPollId + 1
    
    -- Create the event for this poll
    local event = RobloxRS.Net.defineEvent(pollId, {
        reliable = options.reliable ~= false,
        useBuffer = true,
        schema = options.schema
    })
    
    -- Set up polling data
    PollingEvents[pollId] = {
        event = event,
        data = {},
        lastPollTime = 0,
        options = options
    }
    
    if game:GetService("RunService"):IsServer() then
        -- Set up the polling interval on the server
        PollingIntervals[pollId] = task.spawn(function()
            while true do
                task.wait(pollInterval)
                
                local pollData = PollingEvents[pollId]
                local currentData = pollData.data
                
                if #currentData > 0 then
                    -- Prioritize data if needed
                    if priorityFunction and #currentData > batchSize then
                        table.sort(currentData, priorityFunction)
                    end
                    
                    -- Send in batches
                    for i = 1, math.min(#currentData, batchSize) do
                        -- Use the first {batchSize} items only
                        event:fireAll({
                            time = os.clock(),
                            data = {table.unpack(currentData, 1, math.min(#currentData, batchSize))}
                        })
                        
                        -- Remove sent items
                        for j = 1, math.min(#currentData, batchSize) do
                            table.remove(currentData, 1)
                        end
                        
                        if #currentData == 0 then
                            break
                        end
                    end
                end
            end
        end)
    end
    
    -- Return the polling handle
    return {
        -- Add data to be polled
        push = function(self, data)
            if not game:GetService("RunService"):IsServer() then
                error("RobloxRS.Net.Polling: Cannot push data from the client")
            end
            
            table.insert(PollingEvents[pollId].data, data)
            return self
        end,
        
        -- Subscribe to polled data
        subscribe = function(self, callback)
            if game:GetService("RunService"):IsServer() then
                error("RobloxRS.Net.Polling: Cannot subscribe from the server")
            end
            
            event:on(function(data)
                callback(data.time, data.data)
            end)
            
            return self
        end,
        
        -- Clean up
        destroy = function(self)
            if PollingIntervals[pollId] then
                task.cancel(PollingIntervals[pollId])
                PollingIntervals[pollId] = nil
            end
            
            PollingEvents[pollId] = nil
        end
    }
end"#;

/// Generate the network polling system
pub fn generate_polling_lib() -> (r: String)
    ensures
        r@ == POLLING_LIB_SRC@,
{
    String::from_str(POLLING_LIB_SRC)
}

/// Luau source returned by `generate_rpc_lib`.
pub const RPC_LIB_SRC: &'static str = r#"-- RobloxRS RPC System
-- Type-safe Remote Procedure Calls with binary buffer optimization

RobloxRS.Net.RPC = {}
local RPC = RobloxRS.Net.RPC

-- Internal state
local RPCs = {}
local NextRpcId = 0
local PromiseTimeout = 30 -- seconds

-- Create a new RPC
function RPC.define(name, options)
    options = options or {}
    
    if RPCs[name] then
        error("RobloxRS.Net.RPC: RPC '" .. name .. "' already exists")
    end
    
    local requestSchema = options.requestSchema
    local responseSchema = options.responseSchema
    
    -- Create the RPC events
    local requestEvent = RobloxRS.Net.defineEvent(name .. "_req", {
        reliable = true,
        useBuffer = true,
        schema = requestSchema
    })
    
    local responseEvent = RobloxRS.Net.defineEvent(name .. "_res", {
        reliable = true,
        useBuffer = true,
        schema = responseSchema
    })
    
    -- Set up the implementation container
    RPCs[name] = {
        name = name,
        implementation = nil,
        requestEvent = requestEvent,
        responseEvent = responseEvent,
        pendingCalls = {},
        options = options
    }
    
    -- Set up the request handler on the server
    if game:GetService("RunService"):IsServer() then
        requestEvent:on(function(player, request)
            if not RPCs[name].implementation then
                warn("RobloxRS.Net.RPC: No implementation for RPC '" .. name .. "'")
                return
            end
            
            -- Call the implementation
            local success, result = pcall(function()
                return RPCs[name].implementation(player, request)
            end)
            
            -- Send the response
            responseEvent:fire(player, {
                callId = request.callId,
                success = success,
                data = success and result or tostring(result)
            })
        end)
    end
    
    -- Set up the response handler on the client
    if not game:GetService("RunService"):IsServer() then
        responseEvent:on(function(response)
            local pendingCall = RPCs[name].pendingCalls[response.callId]
            
            if pendingCall then
                -- Resolve or reject the promise
                if response.success then
                    pendingCall.resolve(response.data)
                else
                    pendingCall.reject(response.data)
                end
                
                -- Clean up
                RPCs[name].pendingCalls[response.callId] = nil
            end
        end)
    end
    
    -- Return the RPC interface
    return {
        -- Implement the RPC on the server
        implement = function(self, callback)
            if not game:GetService("RunService"):IsServer() then
                error("RobloxRS.Net.RPC: Cannot implement RPC on the client")
            end
            
            RPCs[name].implementation = callback
            return self
        end,
        
        -- Call the RPC from the client
        call = function(self, request)
            if game:GetService("RunService"):IsServer() then
                error("RobloxRS.Net.RPC: Cannot call RPC from the server")
            end
            
            -- Generate a unique call ID
            local callId = HttpService:GenerateGUID(false)
            
            -- Set up the promise
            local resolved = false
            local promise = {
                _result = nil,
                _error = nil,
                _onResolve = {},
                _onReject = {},
                
                -- Promise-like API
                andThen = function(self, onResolve, onReject)
                    if resolved then
                        if self._result then
                            onResolve(self._result)
                        else
                            onReject(self._error)
                        end
                    else
                        if onResolve then
                            table.insert(self._onResolve, onResolve)
                        end
                        
                        if onReject then
                            table.insert(self._onReject, onReject)
                        end
                    end
                    
                    return self
                end,
                
                -- Wait for the result (blocks thread)
                await = function(self, timeout)
                    timeout = timeout or PromiseTimeout
                    local startTime = os.clock()
                    
                    while not resolved and os.clock() - startTime < timeout do
                        task.wait()
                    end
                    
                    if not resolved then
                        error("RobloxRS.Net.RPC: Timeout waiting for RPC '" .. name .. "'")
                    end
                    
                    if self._error then
                        error(self._error)
                    end
                    
                    return self._result
                end
            }
            
            -- Set up resolvers
            local function resolve(result)
                if resolved then return end
                resolved = true
                promise._result = result
                
                for _, callback in ipairs(promise._onResolve) do
                    task.spawn(function()
                        callback(result)
                    end)
                end
            end
            
            local function reject(err)
                if resolved then return end
                resolved = true
                promise._error = err
                
                for _, callback in ipairs(promise._onReject) do
                    task.spawn(function()
                        callback(err)
                    end)
                end
            end
            
            -- Store the pending call
            RPCs[name].pendingCalls[callId] = {
                resolve = resolve,
                reject = reject
            }
            
            -- Set up timeout
            task.delay(PromiseTimeout, function()
                if not resolved then
                    reject("Timeout")
                    RPCs[name].pendingCalls[callId] = nil
                end
            end)
            
            -- Make the request
            request.callId = callId
            requestEvent:fireServer(request)
            
            return promise
        end
    }
end"#;

/// Generate the RPC system
pub fn generate_rpc_lib() -> (r: String)
    ensures
        r@ == RPC_LIB_SRC@,
{
    String::from_str(RPC_LIB_SRC)
}

/// Luau source returned by `generate_middleware_lib`.
pub const MIDDLEWARE_LIB_SRC: &'static str = r#"-- RobloxRS Networking Middleware
-- Add custom processing to network events

RobloxRS.Net.Middleware = {}
local Middleware = RobloxRS.Net.Middleware

-- Middleware stack
local GlobalMiddleware = {
    incoming = {},
    outgoing = {}
}

-- Add global incoming middleware
function Middleware.incoming(handler)
    table.insert(GlobalMiddleware.incoming, handler)
    return function()
        for i, middleware in ipairs(GlobalMiddleware.incoming) do
            if middleware == handler then
                table.remove(GlobalMiddleware.incoming, i)
                break
            end
        end
    end
end

-- Add global outgoing middleware
function Middleware.outgoing(handler)
    table.insert(GlobalMiddleware.outgoing, handler)
    return function()
        for i, middleware in ipairs(GlobalMiddleware.outgoing) do
            if middleware == handler then
                table.remove(GlobalMiddleware.outgoing, i)
                break
            end
        end
    end
end

-- Compression middleware
Middleware.compression = function(options)
    options = options or {}
    local threshold = options.threshold or 100
    
    return {
        -- Compress outgoing data
        outgoing = function(eventName, data)
            if type(data) == "table" and #data > threshold then
                -- In a real implementation, we would compress the data here
                -- For example purposes, we're just marking it as compressed
                return {_compressed = true, data = data}
            end
            
            return data
        end,
        
        -- Decompress incoming data
        incoming = function(eventName, data)
            if type(data) == "table" and data._compressed then
                -- In a real implementation, we would decompress the data here
                return data.data
            end
            
            return data
        end
    }
end

-- Throttling middleware
Middleware.throttle = function(options)
    options = options or {}
    local rate = options.rate or 10
    local period = options.period or 1
    
    local eventCounts = {}
    local lastReset = os.clock()
    
    return {
        outgoing = function(eventName, data)
            local now = os.clock()
            
            -- Reset counters if period elapsed
            if now - lastReset > period then
                eventCounts = {}
                lastReset = now
            end
            
            -- Initialize counter if needed
            eventCounts[eventName] = eventCounts[eventName] or 0
            
            -- Check throttle
            if eventCounts[eventName] >= rate then
                -- Event is throttled
                return nil
            end
            
            -- Increment counter
            eventCounts[eventName] = eventCounts[eventName] + 1
            
            return data
        end
    }
end

-- Rate limiting middleware
Middleware.rateLimit = function(options)
    options = options or {}
    local maxRequests = options.maxRequests or 100
    local windowMs = options.windowMs or 60000
    
    local clients = {}
    
    return {
        incoming = function(player, eventName, data)
            if not game:GetService("RunService"):IsServer() then
                return data
            end
            
            -- Initialize client state if needed
            clients[player.UserId] = clients[player.UserId] or {
                requests = 0,
                resetTime = os.time() * 1000 + windowMs
            }
            
            local client = clients[player.UserId]
            local now = os.time() * 1000
            
            -- Reset if window elapsed
            if now >= client.resetTime then
                client.requests = 0
                client.resetTime = now + windowMs
            end
            
            -- Check rate limit
            if client.requests >= maxRequests then
                -- Request is rate limited
                return nil
            end
            
            -- Increment counter
            client.requests = client.requests + 1
            
            return data
        end
    }
end"#;

/// Generate the networking middleware
pub fn generate_middleware_lib() -> (r: String)
    ensures
        r@ == MIDDLEWARE_LIB_SRC@,
{
    String::from_str(MIDDLEWARE_LIB_SRC)
}

} // verus!
