# cam-stream

Streams a USB camera to browsers over WebSocket, with a tray icon and a small settings
window.

- `src/` is the library: what the service computes and decides, with contracts that Verus
  proves.
- `app/` is the program around it: the web server, the window, the tray icon, and the camera
  through Windows Media Foundation. It carries out what the library asks for.
- `tests/` holds the library's tests.

| Variable     | Default        | Meaning                          |
| ------------ | -------------- | -------------------------------- |
| `CAM_INDEX`  | `0`            | the camera to start with         |
| `CAM_WIDTH`  | `640`          | the frame width to ask for       |
| `CAM_HEIGHT` | `480`          | the frame height to ask for      |
| `CAM_FPS`    | `30`           | the frame rate to ask for        |
| `BIND_ADDR`  | `0.0.0.0:3000` | the address of the web server    |

| Endpoint           | Answer                                                                |
| ------------------ | --------------------------------------------------------------------- |
| `GET /ws`          | binary: JPEG frames; text: `{"type":"stats","fps":..,"seq":..}`        |
| `GET /api/cameras` | the list of cameras                                                   |
| `GET /api/health`  | `{"status":"ok","camera":"streaming"}`, or `connecting`, `disconnected` |

A device is opened in its MJPG type nearest to the requested size, and its samples are sent
as they are; without MJPG, in the nearest RGB32 type, and its samples are encoded as JPEG. A
stream whose last frame is more than 5 s old is given up and the camera opened again; while no
frame has come since the camera was opened, it is first given 5 s to send one. A failed
connection is tried again after 3 s; the cameras are listed in the log at most every 15 s.
Spaces after the numbers in the variables do not count.
