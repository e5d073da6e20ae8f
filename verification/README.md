# glm5_next

GLM-5.3-Flash for an inference runtime, verified with Verus: reading the model
configuration, loading and checking weights, and recording the device work of
the decoder layers.

The library never talks to a device. Code that drives one appends commands to a
`CommandBuffer`; the contract of each such function says which commands it
appends, in which order and with which operands, and what it returns. Results
that do not exist yet, such as an allocation, are named by the command that will
produce them. A command carries what it needs beyond the model's configuration
and weights: a cache write names the pools of its layer, a feed-forward block the
context of its forward pass. `app/` replays a buffer in order and stops at the first command
that fails; what the library refused counts after what the device refused.

| module | what it holds |
| --- | --- |
| `config` | the model configuration, its parser, the faults of a document |
| `capabilities` | what a model can do, decided before weights are loaded |
| `json` | JSON documents |
| `device` | commands, the buffer they are recorded in, addresses |
| `ops` | kernel dispatch |
| `layers` | Kimi Delta Attention, latent attention, the index pool |
| `tensors` | tensors by name and shape |
| `weight_map` | the weights of one attention block |
| `weight_loader` | the weights of a whole model |
| `text` | names and messages |

Floating-point numbers do not occur in the library. A number of the
configuration is kept as the document has it, and a kernel argument says which
float it is: by its bits, or as a document's number rounded to single precision.

Where the `requires` of a function is about several sizes or addresses, a companion
ending in `_in_range` tests it.
