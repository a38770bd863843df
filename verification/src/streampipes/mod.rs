//! Processing of streams with filters organized into pipes: conversion of
//! the stream into frames, and byte-by-byte transcoding.
pub mod filtered;
pub mod frame;
pub mod transcode;
