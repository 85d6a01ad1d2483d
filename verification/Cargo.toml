[package]
name = "datachannel_facade"
version = "0.1.0"
edition = "2021"
publish = false

[dependencies]
js-sys = "*"
log = "*"
wasm-bindgen = "*"
wasm-bindgen-futures = "*"

[dependencies.web-sys]
version = "*"
features = [
    "Event",
    "ErrorEvent",
    "MessageEvent",
    "RtcConfiguration",
    "RtcDataChannel",
    "RtcDataChannelEvent",
    "RtcDataChannelInit",
    "RtcDataChannelState",
    "RtcDataChannelType",
    "RtcIceCandidate",
    "RtcIceCandidateInit",
    "RtcIceGatheringState",
    "RtcIceTransportPolicy",
    "RtcPeerConnection",
    "RtcPeerConnectionIceEvent",
    "RtcPeerConnectionState",
    "RtcSdpType",
    "RtcSessionDescription",
    "RtcSessionDescriptionInit",
    "RtcSignalingState",
]
